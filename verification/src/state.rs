//! The dispatch state: calls waiting for the wizard, answers waiting to be
//! collected, and dispatchers blocked until an answer arrives.

use vstd::prelude::*;
use crate::call_id::{fresh_call_id, is_v4_uuid_text};
use crate::table::KeyedTable;
use crate::tool::{
    copy_json, dispatch_content, dispatched_content, mode_of, names_call, poll_content,
    polled_content, response_mode, ResponseMode, ToolCallRequest, ToolResponse, WizardStatus,
};


verus! {
/// How many ids a dispatch draws, at most, to find one not in use.
pub const ID_DRAWS: usize = 8;


/// A message for the wizard's screens.
#[derive(Debug, PartialEq)]
pub enum Notice {
    /// A tool call has come in.
    ToolCall { call_id: String, name: String, arguments: serde_json::Value },
    /// The wizard has answered a call.
    ResponseReady { call_id: String, response: String, mode: ResponseMode },
    /// An answer has been collected by a poll.
    ResponseComplete { call_id: String, response: String },
}

/// How a blocked dispatcher's wait for the wizard ended.
#[derive(Debug, PartialEq)]
pub enum WaitOutcome {
    /// The wizard's answer arrived.
    Answered(ToolResponse),
    /// The channel to the dispatcher closed, with this error text.
    ChannelClosed(String),
    /// The wizard did not answer in time.
    TimedOut,
}

/// What a blocked dispatch hands back to the model server.
#[derive(Debug, PartialEq)]
pub enum DispatchReply {
    /// The tool result, and whether the tool loop is complete.
    Content { content: String, complete: bool },
    /// Hand the tool call back to the agent.
    Delegate,
    /// The wait failed.
    ChannelError { error: String },
    /// No answer came in time; the call stays pending under `call_id`, to be
    /// answered and polled later.
    Pending { call_id: String },
}

/// What a poll for an answer hands back.
#[derive(Debug, PartialEq)]
pub enum PollReply {
    /// The answer was there: its content, and the notice that it was collected.
    Ready { content: String, completed: Notice },
    /// The answer was there and hands the call back to the agent.
    Delegate { completed: Notice },
    /// No answer yet.
    Waiting,
}

/// What recording a wizard's answer yields.
pub struct Acknowledgement<W> {
    /// How the answer is to be used.
    pub mode: ResponseMode,
    /// The dispatcher blocked on this call, with the answer to hand it.
    pub delivery: Option<(W, ToolResponse)>,
    /// The notice for the wizard's screens.
    pub notice: Notice,
}

/// Prefix of the error text of a failed wait.
pub const CHANNEL_ERROR_PREFIX: &'static str = "Channel error: ";

/// The number of wizard sessions that a status reports.
pub const ACTIVE_SESSIONS: usize = 1;

/// The abstract dispatch state.
pub struct WizardView<W> {
    /// Calls not yet answered, in the order they came in.
    pub pending_calls: Seq<ToolCallRequest>,
    /// Answers by call id, not yet collected.
    pub responses: Map<Seq<char>, ToolResponse>,
    /// Blocked dispatchers by call id.
    pub waiters: Map<Seq<char>, W>,
}

/// Whether a call is to be kept when the calls of `id` are dropped.
pub open spec fn keeps_call(id: Seq<char>) -> spec_fn(ToolCallRequest) -> bool {
    |c: ToolCallRequest| !names_call(c, id)
}

/// The calls of `s` that do not carry the id `id`, in order.
pub open spec fn without_calls(s: Seq<ToolCallRequest>, id: Seq<char>) -> Seq<ToolCallRequest> {
    s.filter(keeps_call(id))
}

/// Every pending call carries an id, and no two carry the same one.
pub open spec fn pending_ids_distinct(calls: Seq<ToolCallRequest>) -> bool {
    &&& forall|i: int| 0 <= i < calls.len() ==> (#[trigger] calls[i]).call_id is Some
    &&& forall|i: int, j: int|
        0 <= i < j < calls.len() ==> (#[trigger] calls[i]).call_id->0@ != (
        #[trigger] calls[j]).call_id->0@
}

/// Dropping the calls of an id keeps the ids distinct, and keeps only calls
/// that were there.
pub proof fn lemma_without_calls_keeps_distinct(s: Seq<ToolCallRequest>, id: Seq<char>)
    requires
        pending_ids_distinct(s),
    ensures
        pending_ids_distinct(without_calls(s, id)),
        forall|x: ToolCallRequest| without_calls(s, id).contains(x) ==> s.contains(x),
    decreases s.len(),
{
    let p = keeps_call(id);
    if s.len() == 0 {
        assert(s.filter(p) =~= s);
    } else {
        let t = s.drop_last();
        let e = s.last();
        assert(t.push(e) =~= s);
        assert(pending_ids_distinct(t)) by {
            assert forall|i: int| 0 <= i < t.len() implies (#[trigger] t[i]).call_id is Some by {
                assert(t[i] == s[i]);
            }
            assert forall|i: int, j: int| 0 <= i < j < t.len() implies (#[trigger] t[i]).call_id->0@
                != (#[trigger] t[j]).call_id->0@ by {
                assert(t[i] == s[i] && t[j] == s[j]);
            }
        }
        lemma_without_calls_keeps_distinct(t, id);
        t.lemma_filter_push(e, p);
        let f = t.filter(p);
        assert forall|x: ToolCallRequest| f.contains(x) implies s.contains(x) by {
            assert(without_calls(t, id).contains(x));
            assert(t.contains(x));
            let k = choose|k: int| 0 <= k < t.len() && t[k] == x;
            assert(s[k] == x);
        }
        if p(e) {
            let g = f.push(e);
            assert(s.filter(p) == g);
            assert(e == s[s.len() - 1]);
            assert forall|i: int| 0 <= i < g.len() implies (#[trigger] g[i]).call_id is Some by {
                if i < f.len() {
                    assert(f.contains(f[i]));
                }
            }
            assert forall|i: int, j: int| 0 <= i < j < g.len() implies (#[trigger] g[i]).call_id->0@
                != (#[trigger] g[j]).call_id->0@ by {
                if j == g.len() - 1 {
                    assert(g[i] == f[i]);
                    assert(g[j] == e);
                    assert(f.contains(f[i]));
                    assert(without_calls(t, id).contains(f[i]));
                    assert(t.contains(f[i]));
                    let k = choose|k: int| 0 <= k < t.len() && t[k] == f[i];
                    assert(s[k] == t[k]);
                    assert(s[k].call_id->0@ != s[s.len() - 1].call_id->0@);
                } else {
                    assert(g[i] == f[i] && g[j] == f[j]);
                }
            }
            assert forall|x: ToolCallRequest| g.contains(x) implies s.contains(x) by {
                let k = choose|k: int| 0 <= k < g.len() && g[k] == x;
                if k < f.len() {
                    assert(f[k] == x);
                    assert(f.contains(x));
                }
            }
        }
    }
}

/// Adding a call under an id that no pending call carries keeps the ids distinct.
pub proof fn lemma_fresh_push_keeps_distinct(
    s: Seq<ToolCallRequest>,
    id: String,
    call: ToolCallRequest,
)
    requires
        pending_ids_distinct(s),
        forall|i: int| 0 <= i < s.len() ==> !names_call(#[trigger] s[i], id@),
    ensures
        pending_ids_distinct(s.push(with_id(call, id))),
{
    let t = s.push(with_id(call, id));
    assert forall|i: int| 0 <= i < t.len() implies (#[trigger] t[i]).call_id is Some by {
        if i < s.len() {
            assert(t[i] == s[i]);
        }
    }
    assert forall|i: int, j: int| 0 <= i < j < t.len() implies (#[trigger] t[i]).call_id->0@
        != (#[trigger] t[j]).call_id->0@ by {
        assert(t[i] == s[i]);
        if j < s.len() {
            assert(t[j] == s[j]);
        } else {
            assert(!names_call(s[i], id@));
        }
    }
}

/// `c` with its id set to `id`.
pub open spec fn with_id(c: ToolCallRequest, id: String) -> ToolCallRequest {
    ToolCallRequest { call_id: Some(id), ..c }
}

impl<W> WizardView<W> {
    /// After a call comes in under `id` with a dispatcher blocked on it.
    pub open spec fn registered(self, id: String, call: ToolCallRequest, waiter: W) -> Self {
        WizardView {
            pending_calls: self.pending_calls.push(with_id(call, id)),
            responses: self.responses,
            waiters: self.waiters.insert(id@, waiter),
        }
    }

    /// After the wizard answers with `r`.
    pub open spec fn answered(self, r: ToolResponse) -> Self {
        WizardView {
            pending_calls: self.pending_calls,
            responses: self.responses.insert(r.call_id@, r),
            waiters: self.waiters.remove(r.call_id@),
        }
    }

    /// Whether `id` is in use: some pending call carries it or a dispatcher
    /// waits under it.
    pub open spec fn uses_id(self, id: Seq<char>) -> bool {
        ||| exists|i: int|
            0 <= i < self.pending_calls.len() && names_call(#[trigger] self.pending_calls[i], id)
        ||| self.waiters.contains_key(id)
    }

    /// After the dispatcher of call `id` gives up waiting; the call stays pending.
    pub open spec fn abandoned(self, id: Seq<char>) -> Self {
        WizardView {
            pending_calls: self.pending_calls,
            responses: self.responses,
            waiters: self.waiters.remove(id),
        }
    }

    /// After the dispatcher of call `id` stops waiting with an answer.
    pub open spec fn released(self, id: Seq<char>) -> Self {
        WizardView {
            pending_calls: without_calls(self.pending_calls, id),
            responses: self.responses,
            waiters: self.waiters.remove(id),
        }
    }

    /// After a poll for the answer to call `id`.
    pub open spec fn polled(self, id: Seq<char>) -> Self {
        if self.responses.contains_key(id) {
            WizardView {
                pending_calls: without_calls(self.pending_calls, id),
                responses: self.responses.remove(id),
                waiters: self.waiters,
            }
        } else {
            self
        }
    }
}

/// The dispatch state, with dispatchers represented by values of type `W`.
pub struct WizardState<W> {
    pending_calls: Vec<ToolCallRequest>,
    responses: KeyedTable<ToolResponse>,
    waiters: KeyedTable<W>,
}

impl<W> View for WizardState<W> {
    type V = WizardView<W>;

    closed spec fn view(&self) -> WizardView<W> {
        WizardView {
            pending_calls: self.pending_calls@,
            responses: self.responses@,
            waiters: self.waiters@,
        }
    }
}

impl<W> WizardState<W> {
    /// Well-formedness of the tables.
    pub closed spec fn wf(&self) -> bool {
        &&& self.responses.wf()
        &&& self.waiters.wf()
        &&& pending_ids_distinct(self.pending_calls@)
    }

    /// In every well-formed state, the pending calls carry distinct ids.
    pub proof fn lemma_wf_ids_distinct(&self)
        requires
            self.wf(),
        ensures
            pending_ids_distinct(self@.pending_calls),
    {
    }

    /// A state with no calls, answers or dispatchers.
    pub fn new() -> (s: Self)
        ensures
            s.wf(),
            s@.pending_calls == Seq::<ToolCallRequest>::empty(),
            s@.responses == Map::<Seq<char>, ToolResponse>::empty(),
            s@.waiters == Map::<Seq<char>, W>::empty(),
    {
        WizardState {
            pending_calls: Vec::new(),
            responses: KeyedTable::new(),
            waiters: KeyedTable::new(),
        }
    }

    /// The calls still waiting for the wizard, and the session count.
    pub fn status(&self) -> (st: WizardStatus)
        requires
            self.wf(),
        ensures
            st.pending_calls@ == self@.pending_calls,
            pending_ids_distinct(st.pending_calls@),
            st.active_sessions == ACTIVE_SESSIONS,
    {
        let mut calls: Vec<ToolCallRequest> = Vec::new();
        let mut i: usize = 0;
        while i < self.pending_calls.len()
            invariant
                i <= self.pending_calls.len(),
                calls@ == self.pending_calls@.take(i as int),
            decreases self.pending_calls.len() - i,
        {
            calls.push(self.pending_calls[i].duplicate());
            assert(self.pending_calls@.take(i + 1) =~= self.pending_calls@.take(i as int).push(
                self.pending_calls@[i as int],
            ));
            i = i + 1;
        }
        assert(self.pending_calls@.take(i as int) =~= self.pending_calls@);
        WizardStatus { pending_calls: calls, active_sessions: ACTIVE_SESSIONS }
    }

    /// Drops every pending call that carries the id `id`.
    fn drop_calls(&mut self, id: &String)
        ensures
            final(self).pending_calls@ == without_calls(old(self).pending_calls@, id@),
            pending_ids_distinct(old(self).pending_calls@) ==> pending_ids_distinct(
                final(self).pending_calls@,
            ),
            final(self).responses == old(self).responses,
            final(self).waiters == old(self).waiters,
    {
        let mut kept: Vec<ToolCallRequest> = Vec::new();
        let mut i: usize = 0;
        while i < self.pending_calls.len()
            invariant
                i <= self.pending_calls.len(),
                kept@ == without_calls(self.pending_calls@.take(i as int), id@),
            decreases self.pending_calls.len() - i,
        {
            let c = &self.pending_calls[i];
            if !c.has_id(id) {
                kept.push(c.duplicate());
            }
            proof {
                let s = self.pending_calls@;
                assert(s.take(i + 1) =~= s.take(i as int).push(s[i as int]));
                s.take(i as int).lemma_filter_push(s[i as int], keeps_call(id@));
            }
            i = i + 1;
        }
        assert(self.pending_calls@.take(i as int) =~= self.pending_calls@);
        proof {
            if pending_ids_distinct(self.pending_calls@) {
                lemma_without_calls_keeps_distinct(self.pending_calls@, id@);
            }
        }
        self.pending_calls = kept;
    }

    /// Records a call that came in under `call_id`, an id not in use, with
    /// `waiter` blocked until the wizard answers it.
    fn register_call(&mut self, call_id: String, call: ToolCallRequest, waiter: W) -> (n: Notice)
        requires
            old(self).wf(),
            !old(self)@.uses_id(call_id@),
        ensures
            final(self).wf(),
            final(self)@ == old(self)@.registered(call_id, call, waiter),
            n == (Notice::ToolCall { call_id, name: call.name, arguments: call.arguments }),
    {
        let notice = Notice::ToolCall {
            call_id: call_id.clone(),
            name: call.name.clone(),
            arguments: copy_json(&call.arguments),
        };
        let mut call = call;
        call.call_id = Some(call_id.clone());
        proof {
            assert forall|i: int| 0 <= i < self.pending_calls@.len() implies !names_call(
                #[trigger] self.pending_calls@[i],
                call_id@,
            ) by {
                assert(!names_call(self@.pending_calls[i], call_id@));
            }
            lemma_fresh_push_keeps_distinct(self.pending_calls@, call_id, call);
        }
        self.pending_calls.push(call);
        self.waiters.insert(call_id, waiter);
        notice
    }

    /// Whether `id` is in use by a pending call or a waiting dispatcher.
    pub fn uses_id(&self, id: &String) -> (r: bool)
        ensures
            r == self@.uses_id(id@),
    {
        let mut i: usize = 0;
        while i < self.pending_calls.len()
            invariant
                i <= self.pending_calls.len(),
                forall|j: int| 0 <= j < i ==> !names_call(#[trigger] self.pending_calls@[j], id@),
            decreases self.pending_calls.len() - i,
        {
            if self.pending_calls[i].has_id(id) {
                assert(names_call(self@.pending_calls[i as int], id@));
                return true;
            }
            i = i + 1;
        }
        self.waiters.contains_key(id)
    }

    /// Records a call under `call_id` with `waiter` blocked until the wizard
    /// answers it, when the id is not in use; otherwise hands the call and
    /// the waiter back and changes nothing.
    pub fn try_register(&mut self, call_id: String, call: ToolCallRequest, waiter: W) -> (r:
        Result<Notice, (ToolCallRequest, W)>)
        requires
            old(self).wf(),
        ensures
            final(self).wf(),
            r is Ok <==> !old(self)@.uses_id(call_id@),
            match r {
                Ok(n) => {
                    &&& final(self)@ == old(self)@.registered(call_id, call, waiter)
                    &&& n == (Notice::ToolCall {
                        call_id,
                        name: call.name,
                        arguments: call.arguments,
                    })
                },
                Err((c, w)) => {
                    &&& final(self)@ == old(self)@
                    &&& c == call
                    &&& w == waiter
                },
            },
    {
        if self.uses_id(&call_id) {
            Err((call, waiter))
        } else {
            Ok(self.register_call(call_id, call, waiter))
        }
    }

    /// Gives a call that came in a fresh id not in use and records it, with
    /// `waiter` blocked until the wizard answers. Returns the id and the
    /// notice of the call, or `None`, with nothing changed, when the random
    /// source fails or every one of `ID_DRAWS` draws is in use.
    pub fn begin_dispatch(&mut self, call: ToolCallRequest, waiter: W) -> (r: Option<(String, Notice)>)
        requires
            old(self).wf(),
        ensures
            final(self).wf(),
            match r {
                Some((id, n)) => {
                    &&& is_v4_uuid_text(id@)
                    &&& !old(self)@.uses_id(id@)
                    &&& final(self)@ == old(self)@.registered(id, call, waiter)
                    &&& n == (Notice::ToolCall { call_id: id, name: call.name, arguments: call.arguments })
                },
                None => final(self)@ == old(self)@,
            },
    {
        let mut held_call = call;
        let mut held_waiter = waiter;
        let mut draws: usize = 0;
        while draws < ID_DRAWS
            invariant
                self.wf(),
                self@ == old(self)@,
                held_call == call,
                held_waiter == waiter,
            decreases ID_DRAWS - draws,
        {
            match fresh_call_id() {
                None => {
                    return None;
                },
                Some(call_id) => {
                    match self.try_register(call_id.clone(), held_call, held_waiter) {
                        Ok(notice) => {
                            return Some((call_id, notice));
                        },
                        Err((c, w)) => {
                            held_call = c;
                            held_waiter = w;
                        },
                    }
                },
            }
            draws = draws + 1;
        }
        None
    }

    /// Records the wizard's answer: it is stored for polling, and the
    /// dispatcher blocked on the call, if any, is released to receive it.
    pub fn respond(&mut self, payload: ToolResponse) -> (a: Acknowledgement<W>)
        requires
            old(self).wf(),
        ensures
            final(self).wf(),
            final(self)@ == old(self)@.answered(payload),
            a.mode == mode_of(payload),
            a.delivery == (if old(self)@.waiters.contains_key(payload.call_id@) {
                Some((old(self)@.waiters[payload.call_id@], payload))
            } else {
                None
            }),
            a.notice == (Notice::ResponseReady {
                call_id: payload.call_id,
                response: payload.response,
                mode: mode_of(payload),
            }),
    {
        let mode = response_mode(&payload);
        let notice = Notice::ResponseReady {
            call_id: payload.call_id.clone(),
            response: payload.response.clone(),
            mode,
        };
        let key = payload.call_id.clone();
        self.responses.insert(key.clone(), payload.duplicate());
        let delivery = match self.waiters.remove(&key) {
            Some(w) => Some((w, payload)),
            None => None,
        };
        Acknowledgement { mode, delivery, notice }
    }

    /// Ends the wait of the dispatcher of call `call_id` and says what it
    /// hands back. An answer drops the call from the pending calls and
    /// forgets the dispatcher, and hands back the agent delegation or the
    /// content; a timeout forgets the dispatcher but keeps the call pending;
    /// a closed channel changes nothing.
    pub fn finish_dispatch(&mut self, call_id: &String, outcome: WaitOutcome) -> (r: DispatchReply)
        requires
            old(self).wf(),
        ensures
            final(self).wf(),
            match outcome {
                WaitOutcome::Answered(resp) => {
                    &&& final(self)@ == old(self)@.released(call_id@)
                    &&& if mode_of(resp) == ResponseMode::DelegateToAgent {
                        r == DispatchReply::Delegate
                    } else {
                        &&& r matches DispatchReply::Content { content, complete }
                        &&& content@ == dispatched_content(resp).0
                        &&& complete == dispatched_content(resp).1
                    }
                },
                WaitOutcome::ChannelClosed(e) => {
                    &&& final(self)@ == old(self)@
                    &&& r matches DispatchReply::ChannelError { error }
                    &&& error@ == CHANNEL_ERROR_PREFIX@ + e@
                },
                WaitOutcome::TimedOut => {
                    &&& final(self)@ == old(self)@.abandoned(call_id@)
                    &&& r == (DispatchReply::Pending { call_id: *call_id })
                },
            },
    {
        match outcome {
            WaitOutcome::Answered(resp) => {
                self.release(call_id);
                if response_mode(&resp) == ResponseMode::DelegateToAgent {
                    DispatchReply::Delegate
                } else {
                    let (content, complete) = dispatch_content(&resp);
                    DispatchReply::Content { content, complete }
                }
            },
            WaitOutcome::ChannelClosed(e) => {
                let mut error = CHANNEL_ERROR_PREFIX.to_string();
                error.append(e.as_str());
                DispatchReply::ChannelError { error }
            },
            WaitOutcome::TimedOut => {
                let _ = self.waiters.remove(call_id);
                DispatchReply::Pending { call_id: call_id.clone() }
            },
        }
    }

    /// Drops the pending calls with id `id` and forgets their dispatcher.
    fn release(&mut self, id: &String)
        requires
            old(self).wf(),
        ensures
            final(self).wf(),
            final(self)@ == old(self)@.released(id@),
    {
        self.drop_calls(id);
        let _ = self.waiters.remove(id);
    }

    /// Collects the answer to call `call_id`: if there is one, it is handed
    /// back (as a delegation to the agent when it delegates) and forgotten,
    /// and the call leaves the pending calls; otherwise nothing changes.
    pub fn poll(&mut self, call_id: &String) -> (r: PollReply)
        requires
            old(self).wf(),
        ensures
            final(self).wf(),
            final(self)@ == old(self)@.polled(call_id@),
            if old(self)@.responses.contains_key(call_id@) {
                let found = old(self)@.responses[call_id@];
                let notice = Notice::ResponseComplete { call_id: *call_id, response: found.response };
                if mode_of(found) == ResponseMode::DelegateToAgent {
                    r == (PollReply::Delegate { completed: notice })
                } else {
                    &&& r matches PollReply::Ready { content, completed }
                    &&& content@ == polled_content(found)
                    &&& completed == notice
                }
            } else {
                r == PollReply::Waiting
            },
    {
        let (content, response, delegates) = match self.responses.get(call_id) {
            Some(found) => (
                poll_content(found),
                found.response.clone(),
                response_mode(found) == ResponseMode::DelegateToAgent,
            ),
            None => {
                return PollReply::Waiting;
            },
        };
        self.drop_calls(call_id);
        let _ = self.responses.remove(call_id);
        let completed = Notice::ResponseComplete { call_id: call_id.clone(), response };
        if delegates {
            PollReply::Delegate { completed }
        } else {
            PollReply::Ready { content, completed }
        }
    }
}

} // verus!
