//! Properties that hold across the operations of the dispatch state.

use vstd::prelude::*;
use crate::state::{
    keeps_call, lemma_fresh_push_keeps_distinct, pending_ids_distinct, with_id, without_calls, WizardState,
    WizardView,
};
use crate::session::{socket_reaction, SocketAction, SocketEvent};
use crate::text::{remove_all, contains_pattern};
use crate::tool::{
    dispatched_content, mode_of, names_call, polled_content, ResponseMode, ToolCallRequest,
    ToolResponse, FORWARD_MARKER, USE_MODEL_CONTENT,
};

verus! {

/// A call that comes in is pending under its id, and its dispatcher waits
/// under that id.
pub proof fn law_registered_call_is_pending<W>(
    s: WizardView<W>,
    id: String,
    call: ToolCallRequest,
    waiter: W,
)
    ensures
        ({
            let t = s.registered(id, call, waiter);
            &&& t.pending_calls.last() == with_id(call, id)
            &&& names_call(t.pending_calls.last(), id@)
            &&& t.pending_calls.drop_last() == s.pending_calls
            &&& t.waiters.contains_key(id@)
            &&& t.waiters[id@] == waiter
        }),
{
    assert(s.registered(id, call, waiter).pending_calls.drop_last() =~= s.pending_calls);
}

/// The wizard's answer to a call goes to the dispatcher waiting on it, and
/// afterwards nobody waits on that call any more.
pub proof fn law_answer_reaches_waiter<W>(
    s: WizardView<W>,
    id: String,
    call: ToolCallRequest,
    waiter: W,
    r: ToolResponse,
)
    requires
        r.call_id@ == id@,
    ensures
        s.registered(id, call, waiter).waiters.contains_key(r.call_id@),
        s.registered(id, call, waiter).waiters[r.call_id@] == waiter,
        !s.registered(id, call, waiter).answered(r).waiters.contains_key(id@),
{
}

/// A poll after an answer finds that answer; the poll consumes it, so a
/// second poll finds nothing.
pub proof fn law_poll_returns_answer<W>(s: WizardView<W>, r: ToolResponse)
    ensures
        s.answered(r).responses.contains_key(r.call_id@),
        s.answered(r).responses[r.call_id@] == r,
        !s.answered(r).polled(r.call_id@).responses.contains_key(r.call_id@),
        s.answered(r).polled(r.call_id@).polled(r.call_id@) == s.answered(r).polled(r.call_id@),
{
}

/// Polling for a call that has no answer changes nothing.
pub proof fn law_poll_without_answer_is_idle<W>(s: WizardView<W>, id: Seq<char>)
    requires
        !s.responses.contains_key(id),
    ensures
        s.polled(id) == s,
{
}

/// A later answer to the same call replaces an earlier one.
pub proof fn law_latest_answer_wins<W>(s: WizardView<W>, r1: ToolResponse, r2: ToolResponse)
    requires
        r1.call_id@ == r2.call_id@,
    ensures
        s.answered(r1).answered(r2).responses[r2.call_id@] == r2,
{
}

/// Dropping the calls of an id leaves none with that id, keeps every other
/// call, and keeps the answers.
pub proof fn law_release_clears_call<W>(s: WizardView<W>, id: Seq<char>)
    ensures
        forall|i: int|
            0 <= i < s.released(id).pending_calls.len() ==> !names_call(
                #[trigger] s.released(id).pending_calls[i],
                id,
            ),
        forall|c: ToolCallRequest|
            s.pending_calls.contains(c) && !names_call(c, id) ==> s.released(id).pending_calls.contains(c),
        !s.released(id).waiters.contains_key(id),
        s.released(id).responses == s.responses,
{
    let p = keeps_call(id);
    assert forall|i: int| 0 <= i < s.released(id).pending_calls.len() implies !names_call(
        #[trigger] s.released(id).pending_calls[i],
        id,
    ) by {
        s.pending_calls.lemma_filter_pred(p, i);
    }
    assert forall|c: ToolCallRequest|
        s.pending_calls.contains(c) && !names_call(c, id) implies s.released(id).pending_calls.contains(c) by {
        let i = choose|i: int| 0 <= i < s.pending_calls.len() && s.pending_calls[i] == c;
        s.pending_calls.lemma_filter_contains(p, i);
    }
}

/// A full blocking dispatch: the call comes in, the wizard answers, the
/// dispatcher is released. The call is no longer pending and nobody waits
/// on it; the answer stays stored until it is polled.
pub proof fn law_dispatch_round_trip<W>(
    s: WizardView<W>,
    id: String,
    call: ToolCallRequest,
    waiter: W,
    r: ToolResponse,
)
    requires
        r.call_id@ == id@,
        forall|i: int| 0 <= i < s.pending_calls.len() ==> !names_call(#[trigger] s.pending_calls[i], id@),
    ensures
        ({
            let t = s.registered(id, call, waiter).answered(r).released(id@);
            &&& t.pending_calls == s.pending_calls
            &&& !t.waiters.contains_key(id@)
            &&& t.responses.contains_key(id@)
            &&& t.responses[id@] == r
        }),
{
    let p = keeps_call(id@);
    s.pending_calls.lemma_filter_push(with_id(call, id), p);
    assert(s.pending_calls.filter(p) =~= s.pending_calls) by {
        lemma_filter_keeps_all(s.pending_calls, id@);
    }
}

/// A call registered under an id not in use is the one pending call with
/// that id, and the pending ids stay distinct.
pub proof fn law_fresh_registration_keeps_ids_distinct<W>(
    s: WizardView<W>,
    id: String,
    call: ToolCallRequest,
    waiter: W,
)
    requires
        pending_ids_distinct(s.pending_calls),
        !s.uses_id(id@),
    ensures
        ({
            let t = s.registered(id, call, waiter).pending_calls;
            &&& pending_ids_distinct(t)
            &&& names_call(t.last(), id@)
            &&& forall|i: int| 0 <= i < t.len() - 1 ==> !names_call(#[trigger] t[i], id@)
        }),
{
    let t = s.registered(id, call, waiter).pending_calls;
    assert forall|i: int| 0 <= i < s.pending_calls.len() implies !names_call(
        #[trigger] s.pending_calls[i],
        id@,
    ) by {}
    lemma_fresh_push_keeps_distinct(s.pending_calls, id, call);
    assert forall|i: int| 0 <= i < t.len() - 1 implies !names_call(#[trigger] t[i], id@) by {
        assert(t[i] == s.pending_calls[i]);
    }
}

/// In every state reached through the library's operations, the pending
/// calls carry ids, no two the same; so a call waiting under an id is listed
/// in the status exactly once.
pub proof fn law_pending_ids_distinct<W>(s: &WizardState<W>, id: Seq<char>)
    requires
        s.wf(),
    ensures
        pending_ids_distinct(s@.pending_calls),
        forall|i: int, j: int|
            0 <= i < s@.pending_calls.len() && 0 <= j < s@.pending_calls.len() && names_call(
                #[trigger] s@.pending_calls[i],
                id,
            ) && names_call(#[trigger] s@.pending_calls[j], id) ==> i == j,
{
    s.lemma_wf_ids_distinct();
    let c = s@.pending_calls;
    assert forall|i: int, j: int|
        0 <= i < c.len() && 0 <= j < c.len() && names_call(#[trigger] c[i], id) && names_call(
            #[trigger] c[j],
            id,
        ) implies i == j by {
        if i < j {
            assert(c[i].call_id->0@ != c[j].call_id->0@);
        } else if j < i {
            assert(c[j].call_id->0@ != c[i].call_id->0@);
        }
    }
}

/// A dispatch that no answer reaches in time leaves its call pending, with
/// no dispatcher waiting; a later answer is then collected by a poll, which
/// drops the call.
pub proof fn law_timed_out_call_stays_answerable<W>(
    s: WizardView<W>,
    id: String,
    call: ToolCallRequest,
    waiter: W,
    r: ToolResponse,
)
    requires
        r.call_id@ == id@,
    ensures
        ({
            let t = s.registered(id, call, waiter).abandoned(id@);
            &&& t.pending_calls.last() == with_id(call, id)
            &&& !t.waiters.contains_key(id@)
            &&& t.answered(r).responses.contains_key(id@)
            &&& t.answered(r).responses[id@] == r
            &&& !t.answered(r).polled(id@).responses.contains_key(id@)
            &&& forall|i: int|
                0 <= i < t.answered(r).polled(id@).pending_calls.len() ==> !names_call(
                    #[trigger] t.answered(r).polled(id@).pending_calls[i],
                    id@,
                )
        }),
{
    let u = s.registered(id, call, waiter).abandoned(id@).answered(r);
    let p = keeps_call(id@);
    assert forall|i: int| 0 <= i < u.polled(id@).pending_calls.len() implies !names_call(
        #[trigger] u.polled(id@).pending_calls[i],
        id@,
    ) by {
        u.pending_calls.lemma_filter_pred(p, i);
    }
}

/// An answer delegates to the agent exactly when it asks to and does not
/// skip the model.
pub proof fn law_delegation_mode(r: ToolResponse)
    ensures
        mode_of(r) == ResponseMode::DelegateToAgent <==> (r.delegate && !r.skip_ai),
{
}

/// Filtering out an id that no call carries keeps every call.
proof fn lemma_filter_keeps_all(s: Seq<ToolCallRequest>, id: Seq<char>)
    requires
        forall|i: int| 0 <= i < s.len() ==> !names_call(#[trigger] s[i], id),
    ensures
        without_calls(s, id) == s,
    decreases s.len(),
{
    let p = keeps_call(id);
    if s.len() > 0 {
        let t = s.drop_last();
        assert forall|i: int| 0 <= i < t.len() implies !names_call(#[trigger] t[i], id) by {
            assert(t[i] == s[i]);
        }
        lemma_filter_keeps_all(t, id);
        t.lemma_filter_push(s.last(), p);
        assert(t.push(s.last()) =~= s);
    } else {
        assert(s.filter(p) =~= s);
    }
}

/// How the mode of an answer and the content a dispatch returns agree: only
/// a skip of the model completes the tool loop; a plain tool answer and a
/// skip pass the text through; letting the model answer returns the
/// `use_model` content; forwarding strips the marker.
pub proof fn law_mode_decides_content(r: ToolResponse)
    ensures
        dispatched_content(r).1 <==> mode_of(r) == ResponseMode::SkipAi,
        mode_of(r) == ResponseMode::SkipAi ==> dispatched_content(r).0 == r.response@,
        mode_of(r) == ResponseMode::AnswerAsTool ==> dispatched_content(r).0 == r.response@
            && polled_content(r) == r.response@,
        mode_of(r) == ResponseMode::LetAiAnswer ==> dispatched_content(r).0 == USE_MODEL_CONTENT@
            && polled_content(r) == USE_MODEL_CONTENT@,
        mode_of(r) == ResponseMode::AddContextAndForward ==> dispatched_content(r).0 == remove_all(
            r.response@,
            FORWARD_MARKER@,
        ),
        !contains_pattern(r.response@, FORWARD_MARKER@) && !r.use_model ==> dispatched_content(
            r,
        ).0 == r.response@,
{
}

/// A call coming in touches no stored answer and no other dispatcher.
pub proof fn law_registration_is_local<W>(
    s: WizardView<W>,
    id: String,
    call: ToolCallRequest,
    waiter: W,
)
    ensures
        ({
            let t = s.registered(id, call, waiter);
            &&& t.responses == s.responses
            &&& forall|k: Seq<char>|
                k != id@ ==> (#[trigger] t.waiters.contains_key(k) <==> s.waiters.contains_key(k))
            &&& forall|k: Seq<char>| k != id@ && s.waiters.contains_key(k) ==> #[trigger] t.waiters[k]
                == s.waiters[k]
            &&& forall|i: int| 0 <= i < s.pending_calls.len() ==> #[trigger] t.pending_calls[i]
                == s.pending_calls[i]
            &&& t.pending_calls.len() == s.pending_calls.len() + 1
        }),
{
}

/// An answer touches only its own call: the pending calls, the answers to
/// other calls and the dispatchers of other calls stay as they were.
pub proof fn law_answer_is_local<W>(s: WizardView<W>, r: ToolResponse)
    ensures
        ({
            let t = s.answered(r);
            &&& t.pending_calls == s.pending_calls
            &&& forall|k: Seq<char>|
                k != r.call_id@ ==> (#[trigger] t.responses.contains_key(k)
                    <==> s.responses.contains_key(k))
            &&& forall|k: Seq<char>|
                k != r.call_id@ && s.responses.contains_key(k) ==> #[trigger] t.responses[k]
                    == s.responses[k]
            &&& forall|k: Seq<char>|
                k != r.call_id@ ==> (#[trigger] t.waiters.contains_key(k)
                    <==> s.waiters.contains_key(k))
            &&& forall|k: Seq<char>|
                k != r.call_id@ && s.waiters.contains_key(k) ==> #[trigger] t.waiters[k]
                    == s.waiters[k]
        }),
{
}

/// Ending a dispatch with an answer touches only its own call: every answer
/// and every other dispatcher stays.
pub proof fn law_release_is_local<W>(s: WizardView<W>, id: Seq<char>)
    ensures
        ({
            let t = s.released(id);
            &&& t.responses == s.responses
            &&& forall|k: Seq<char>|
                k != id ==> (#[trigger] t.waiters.contains_key(k) <==> s.waiters.contains_key(k))
            &&& forall|k: Seq<char>| k != id && s.waiters.contains_key(k) ==> #[trigger] t.waiters[k]
                == s.waiters[k]
        }),
{
}

/// A dispatch that times out only stops waiting: its call stays pending, and
/// every answer and every other dispatcher stays.
pub proof fn law_timeout_is_local<W>(s: WizardView<W>, id: Seq<char>)
    ensures
        ({
            let t = s.abandoned(id);
            &&& t.pending_calls == s.pending_calls
            &&& t.responses == s.responses
            &&& !t.waiters.contains_key(id)
            &&& forall|k: Seq<char>|
                k != id ==> (#[trigger] t.waiters.contains_key(k) <==> s.waiters.contains_key(k))
            &&& forall|k: Seq<char>| k != id && s.waiters.contains_key(k) ==> #[trigger] t.waiters[k]
                == s.waiters[k]
        }),
{
}

/// A poll touches only its own call: every dispatcher, the answers to other
/// calls, and the pending calls of other ids stay.
pub proof fn law_poll_is_local<W>(s: WizardView<W>, id: Seq<char>)
    ensures
        ({
            let t = s.polled(id);
            &&& t.waiters == s.waiters
            &&& forall|k: Seq<char>|
                k != id ==> (#[trigger] t.responses.contains_key(k) <==> s.responses.contains_key(k))
            &&& forall|k: Seq<char>|
                k != id && s.responses.contains_key(k) ==> #[trigger] t.responses[k]
                    == s.responses[k]
            &&& forall|c: ToolCallRequest|
                s.pending_calls.contains(c) && !names_call(c, id) ==> #[trigger] t.pending_calls.contains(c)
        }),
{
    let p = keeps_call(id);
    assert forall|c: ToolCallRequest|
        s.pending_calls.contains(c) && !names_call(c, id) implies #[trigger] s.polled(id).pending_calls.contains(c) by {
        if s.responses.contains_key(id) {
            let i = choose|i: int| 0 <= i < s.pending_calls.len() && s.pending_calls[i] == c;
            s.pending_calls.lemma_filter_contains(p, i);
        }
    }
}

/// Two dispatches blocked at once do not disturb each other: after the
/// first is answered and released, the second's dispatcher still waits and
/// receives the second answer, and both answers stay stored.
pub proof fn law_concurrent_dispatches_are_independent<W>(
    s: WizardView<W>,
    a: String,
    call_a: ToolCallRequest,
    waiter_a: W,
    b: String,
    call_b: ToolCallRequest,
    waiter_b: W,
    ra: ToolResponse,
    rb: ToolResponse,
)
    requires
        a@ != b@,
        ra.call_id@ == a@,
        rb.call_id@ == b@,
    ensures
        ({
            let t = s.registered(a, call_a, waiter_a).registered(b, call_b, waiter_b).answered(
                ra,
            ).released(a@);
            &&& t.waiters.contains_key(b@)
            &&& t.waiters[b@] == waiter_b
            &&& !t.answered(rb).waiters.contains_key(b@)
            &&& t.answered(rb).responses[a@] == ra
            &&& t.answered(rb).responses[b@] == rb
        }),
{
}

/// Every broadcast is passed on to the wizard unchanged.
pub proof fn law_broadcast_is_forwarded(text: String)
    ensures
        socket_reaction(SocketEvent::Broadcast(text)) == SocketAction::Forward(text),
{
}

/// Only a text message can draw a pong, only a failure or close ends the
/// connection, and nothing the wizard sends is forwarded.
pub proof fn law_socket_reactions(e: SocketEvent)
    ensures
        socket_reaction(e) == SocketAction::SendPong ==> e is ClientText,
        socket_reaction(e) == SocketAction::Close <==> (e is ClientFailed || e is ClientClosed
            || e is BroadcastFailed),
        socket_reaction(e) is Forward ==> e is Broadcast,
        e is ClientOther ==> socket_reaction(e) == SocketAction::Ignore,
{
}

/// How an answer's flags and text choose its mode: skipping the model
/// decides first, then delegating, then letting the model answer, then a
/// forward marker in the text; an answer with none of these is a tool answer.
pub proof fn law_mode_priority(r: ToolResponse)
    ensures
        r.skip_ai ==> mode_of(r) == ResponseMode::SkipAi,
        !r.skip_ai && r.delegate ==> mode_of(r) == ResponseMode::DelegateToAgent,
        !r.skip_ai && !r.delegate && r.use_model ==> mode_of(r) == ResponseMode::LetAiAnswer,
        !r.skip_ai && !r.delegate && !r.use_model && contains_pattern(r.response@, FORWARD_MARKER@)
            ==> mode_of(r) == ResponseMode::AddContextAndForward,
        !r.skip_ai && !r.delegate && !r.use_model && !contains_pattern(
            r.response@,
            FORWARD_MARKER@,
        ) ==> mode_of(r) == ResponseMode::AnswerAsTool,
{
}

/// A poll hands back the wizard's text as written, unless the wizard let the
/// model answer, when it hands back the `use_model` content.
pub proof fn law_poll_content(r: ToolResponse)
    ensures
        !r.use_model ==> polled_content(r) == r.response@,
        r.use_model ==> polled_content(r) == USE_MODEL_CONTENT@,
{
}

} // verus!
