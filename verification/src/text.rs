//! Character-level search and removal of a fixed pattern in text.

use vstd::prelude::*;
use vstd::std_specs::iter::IteratorSpec;

verus! {

/// `p` occurs in `s` starting at index `i`.
pub open spec fn occurs_at(s: Seq<char>, p: Seq<char>, i: int) -> bool {
    &&& 0 <= i
    &&& i + p.len() <= s.len()
    &&& s.subrange(i, i + p.len()) == p
}

/// `p` occurs somewhere in `s`.
pub open spec fn contains_pattern(s: Seq<char>, p: Seq<char>) -> bool {
    exists|i: int| occurs_at(s, p, i)
}

/// The suffix `s[i..]` with each occurrence of `p` removed, occurrences being
/// taken from the left and never overlapping.
pub open spec fn removed_from(s: Seq<char>, p: Seq<char>, i: int) -> Seq<char>
    decreases s.len() - i,
{
    if i < 0 || i >= s.len() {
        Seq::empty()
    } else if p.len() == 0 {
        s.subrange(i, s.len() as int)
    } else if occurs_at(s, p, i) {
        removed_from(s, p, i + p.len())
    } else {
        seq![s[i]] + removed_from(s, p, i + 1)
    }
}

/// `s` with every occurrence of `p` replaced by nothing.
pub open spec fn remove_all(s: Seq<char>, p: Seq<char>) -> Seq<char> {
    removed_from(s, p, 0)
}

/// The characters of `s`, in order.
pub fn chars_of(s: &str) -> (v: Vec<char>)
    ensures
        v@ == s@,
{
    broadcast use vstd::string::group_string_axioms;

    let mut chars = s.chars();
    let mut v: Vec<char> = Vec::new();
    loop
        invariant
            v@ + IteratorSpec::remaining(&chars) == s@,
            IteratorSpec::decrease(&chars) is Some,
        ensures
            v@ == s@,
        decreases IteratorSpec::decrease(&chars)->0,
    {
        let ghost before = IteratorSpec::remaining(&chars);
        match chars.next() {
            Some(c) => {
                assert(before.len() > 0);
                v.push(c);
                assert(v@ + IteratorSpec::remaining(&chars) == s@) by {
                    assert(before == seq![c] + before.drop_first());
                }
            },
            None => {
                assert(v@ == s@);
                break ;
            },
        }
    }
    v
}

/// Whether `p` occurs in `s` at index `i`.
fn occurs_at_exec(s: &Vec<char>, p: &Vec<char>, i: usize) -> (r: bool)
    ensures
        r == occurs_at(s@, p@, i as int),
{
    if i > s.len() || p.len() > s.len() - i {
        return false;
    }
    let mut j: usize = 0;
    while j < p.len()
        invariant
            i + p.len() <= s.len(),
            j <= p.len(),
            forall|k: int| 0 <= k < j ==> s@[i + k] == p@[k],
        decreases p.len() - j,
    {
        if s[i + j] != p[j] {
            assert(s@.subrange(i as int, i + p.len())[j as int] != p@[j as int]);
            return false;
        }
        j = j + 1;
    }
    assert(s@.subrange(i as int, i + p.len()) =~= p@);
    true
}

/// Whether `p` occurs anywhere in `s`.
pub fn contains_text(s: &str, p: &str) -> (r: bool)
    ensures
        r == contains_pattern(s@, p@),
{
    let sv = chars_of(s);
    let pv = chars_of(p);
    if pv.len() > sv.len() {
        assert forall|k: int| !occurs_at(s@, p@, k) by {}
        return false;
    }
    if pv.len() == 0 {
        assert(s@.subrange(0, 0) =~= p@);
        assert(occurs_at(s@, p@, 0));
        return true;
    }
    let last = sv.len() - pv.len();
    let mut i: usize = 0;
    while i <= last
        invariant
            sv@ == s@,
            pv@ == p@,
            last + pv.len() == sv.len(),
            pv.len() > 0,
            i <= last + 1,
            forall|k: int| 0 <= k < i ==> !occurs_at(s@, p@, k),
        decreases last + 1 - i,
    {
        if occurs_at_exec(&sv, &pv, i) {
            return true;
        }
        i = i + 1;
    }
    assert forall|k: int| !occurs_at(s@, p@, k) by {
        if 0 <= k < i {
            assert(!occurs_at(s@, p@, k));
        }
    }
    false
}

/// `s` with every occurrence of `p` cut out, scanning from the left; an
/// empty `p` leaves `s` as it is.
pub fn remove_text(s: &str, p: &str) -> (r: String)
    ensures
        r@ == remove_all(s@, p@),
{
    let sv = chars_of(s);
    let pv = chars_of(p);
    if pv.len() == 0 {
        if sv.len() == 0 {
            assert(remove_all(s@, p@) =~= s@);
        } else {
            assert(s@.subrange(0, s@.len() as int) =~= s@);
        }
        return s.to_string();
    }
    let n = sv.len();
    let mut out = String::new();
    let mut seg: usize = 0;
    let mut i: usize = 0;
    while i < n
        invariant
            sv@ == s@,
            pv@ == p@,
            n == s@.len(),
            p@.len() > 0,
            seg <= i <= n,
            out@ + s@.subrange(seg as int, i as int) + removed_from(s@, p@, i as int) == remove_all(
                s@,
                p@,
            ),
        decreases n - i,
    {
        if occurs_at_exec(&sv, &pv, i) {
            let piece = s.substring_char(seg, i);
            out.append(piece);
            i = i + pv.len();
            seg = i;
            assert(s@.subrange(seg as int, i as int) =~= Seq::<char>::empty());
        } else {
            let ghost old_i = i as int;
            i = i + 1;
            assert(s@.subrange(seg as int, old_i) + seq![s@[old_i]] =~= s@.subrange(seg as int, i as int));
            assert(removed_from(s@, p@, old_i) == seq![s@[old_i]] + removed_from(s@, p@, i as int));
        }
    }
    let tail = s.substring_char(seg, n);
    out.append(tail);
    assert(removed_from(s@, p@, n as int) =~= Seq::<char>::empty());
    out
}

/// Removing a pattern that does not occur leaves the text unchanged.
pub proof fn law_remove_absent_is_identity(s: Seq<char>, p: Seq<char>)
    requires
        !contains_pattern(s, p),
    ensures
        remove_all(s, p) == s,
{
    if p.len() == 0 {
        assert(s.subrange(0, 0) =~= p);
        assert(occurs_at(s, p, 0));
    }
    lemma_removed_from_absent(s, p, 0);
    assert(s.subrange(0, s.len() as int) =~= s);
}

proof fn lemma_removed_from_absent(s: Seq<char>, p: Seq<char>, i: int)
    requires
        p.len() > 0,
        !contains_pattern(s, p),
        0 <= i <= s.len(),
    ensures
        removed_from(s, p, i) == s.subrange(i, s.len() as int),
    decreases s.len() - i,
{
    if i < s.len() {
        assert(!occurs_at(s, p, i));
        lemma_removed_from_absent(s, p, i + 1);
        assert(seq![s[i]] + s.subrange(i + 1, s.len() as int) =~= s.subrange(i, s.len() as int));
    } else {
        assert(s.subrange(i, s.len() as int) =~= Seq::<char>::empty());
    }
}

/// Text in front of the scanned part does not change what the removal does
/// to the rest.
proof fn lemma_removed_from_shift(q: Seq<char>, s: Seq<char>, p: Seq<char>, i: int)
    requires
        p.len() > 0,
        0 <= i <= s.len(),
    ensures
        removed_from(q + s, p, q.len() + i) == removed_from(s, p, i),
    decreases s.len() - i,
{
    let t = q + s;
    let j = q.len() + i;
    if i < s.len() {
        assert(t[j] == s[i]);
        if i + p.len() <= s.len() {
            assert(t.subrange(j, j + p.len()) =~= s.subrange(i, i + p.len()));
        }
        assert(occurs_at(t, p, j) == occurs_at(s, p, i));
        if occurs_at(s, p, i) {
            lemma_removed_from_shift(q, s, p, i + p.len());
        } else {
            lemma_removed_from_shift(q, s, p, i + 1);
        }
    }
}

/// A pattern at the very start of the text is removed, and the rest of the
/// text is treated as if it stood alone.
pub proof fn law_remove_leading_pattern(p: Seq<char>, s: Seq<char>)
    requires
        p.len() > 0,
    ensures
        remove_all(p + s, p) == remove_all(s, p),
{
    let t = p + s;
    assert(t.subrange(0, p.len() as int) =~= p);
    assert(occurs_at(t, p, 0));
    lemma_removed_from_shift(p, s, p, 0);
}

/// A pattern occurs in any text that holds it between two other texts.
pub proof fn law_contains_inner_pattern(x: Seq<char>, p: Seq<char>, y: Seq<char>)
    ensures
        contains_pattern(x + p + y, p),
{
    let t = x + p + y;
    assert(t.subrange(x.len() as int, (x.len() + p.len()) as int) =~= p);
    assert(occurs_at(t, p, x.len() as int));
}

} // verus!
