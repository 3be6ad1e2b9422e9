//! What it means to trim a text: the model of `str::trim` that the line
//! reader's contract is stated over, and what follows from it.

use vstd::prelude::*;

verus! {

/// Whether `c` has the Unicode property `White_Space`: the 25 code points
/// that `PropList.txt` of the Unicode Character Database lists under it.
pub open spec fn is_whitespace(c: char) -> bool {
    let n: u32 = c as u32;
    ||| 0x0009 <= n <= 0x000D
    ||| n == 0x0020
    ||| n == 0x0085
    ||| n == 0x00A0
    ||| n == 0x1680
    ||| 0x2000 <= n <= 0x200A
    ||| n == 0x2028
    ||| n == 0x2029
    ||| n == 0x202F
    ||| n == 0x205F
    ||| n == 0x3000
}

/// `s` without the whitespace it starts with.
pub open spec fn trim_start(s: Seq<char>) -> Seq<char>
    decreases s.len(),
{
    if s.len() > 0 && is_whitespace(s.first()) {
        trim_start(s.drop_first())
    } else {
        s
    }
}

/// `s` without the whitespace it ends with.
pub open spec fn trim_end(s: Seq<char>) -> Seq<char>
    decreases s.len(),
{
    if s.len() > 0 && is_whitespace(s.last()) {
        trim_end(s.drop_last())
    } else {
        s
    }
}

/// `s` without the whitespace at either end. Whitespace inside stays.
pub open spec fn trimmed(s: Seq<char>) -> Seq<char> {
    trim_end(trim_start(s))
}

/// Every character of `s` is whitespace.
pub open spec fn all_whitespace(s: Seq<char>) -> bool {
    forall|i: int| 0 <= i < s.len() ==> is_whitespace(#[trigger] s[i])
}

/// `t` neither starts nor ends with whitespace.
pub open spec fn has_bare_ends(t: Seq<char>) -> bool {
    t.len() > 0 ==> !is_whitespace(t.first()) && !is_whitespace(t.last())
}

/// `s` is `t` with nothing but whitespace before and after it, and `t` has
/// none left at its ends.
pub open spec fn is_trim_of(t: Seq<char>, s: Seq<char>) -> bool {
    &&& has_bare_ends(t)
    &&& exists|lead: Seq<char>, trail: Seq<char>|
        all_whitespace(lead) && all_whitespace(trail) && #[trigger] (lead + t + trail) == s
}

/// `str::trim` returns the part of `s` between its leading and its trailing
/// whitespace, where whitespace is what the Unicode property `White_Space`
/// covers; a text of whitespace alone gives the empty text. Verus takes this
/// on trust from the documentation of `str::trim` and `char::is_whitespace`.
pub assume_specification[ str::trim ](s: &str) -> (t: &str)
    ensures
        t@ == trimmed(s@),
;

/// The whitespace that `trim_start` drops: `s` is that whitespace followed by
/// `trim_start(s)`, which does not start with whitespace.
pub proof fn lemma_trim_start_splits(s: Seq<char>) -> (lead: Seq<char>)
    ensures
        all_whitespace(lead),
        lead + trim_start(s) == s,
        trim_start(s).len() > 0 ==> !is_whitespace(trim_start(s).first()),
    decreases s.len(),
{
    if s.len() > 0 && is_whitespace(s.first()) {
        let rest = lemma_trim_start_splits(s.drop_first());
        let lead = seq![s.first()] + rest;
        assert(lead + trim_start(s) =~= seq![s.first()] + (rest + trim_start(s.drop_first())));
        assert(seq![s.first()] + s.drop_first() =~= s);
        lead
    } else {
        assert(Seq::<char>::empty() + s =~= s);
        Seq::empty()
    }
}

/// The whitespace that `trim_end` drops: `s` is `trim_end(s)`, which does not
/// end with whitespace, followed by that whitespace.
pub proof fn lemma_trim_end_splits(s: Seq<char>) -> (trail: Seq<char>)
    ensures
        all_whitespace(trail),
        trim_end(s) + trail == s,
        trim_end(s).len() > 0 ==> !is_whitespace(trim_end(s).last()),
    decreases s.len(),
{
    if s.len() > 0 && is_whitespace(s.last()) {
        let rest = lemma_trim_end_splits(s.drop_last());
        let trail = rest + seq![s.last()];
        assert(trim_end(s) + trail =~= (trim_end(s.drop_last()) + rest) + seq![s.last()]);
        assert(s.drop_last() + seq![s.last()] =~= s);
        trail
    } else {
        assert(s + Seq::<char>::empty() =~= s);
        Seq::empty()
    }
}

/// Whitespace in front of a text does not change what `trim_start` leaves.
pub proof fn lemma_trim_start_skips(lead: Seq<char>, rest: Seq<char>)
    requires
        all_whitespace(lead),
    ensures
        trim_start(lead + rest) == trim_start(rest),
    decreases lead.len(),
{
    if lead.len() > 0 {
        assert(is_whitespace(lead[0]));
        assert((lead + rest).drop_first() =~= lead.drop_first() + rest);
        lemma_trim_start_skips(lead.drop_first(), rest);
    } else {
        assert(lead + rest =~= rest);
    }
}

/// Whitespace behind a text does not change what `trim_end` leaves.
pub proof fn lemma_trim_end_skips(rest: Seq<char>, trail: Seq<char>)
    requires
        all_whitespace(trail),
    ensures
        trim_end(rest + trail) == trim_end(rest),
    decreases trail.len(),
{
    if trail.len() > 0 {
        assert(is_whitespace(trail[trail.len() - 1]));
        assert((rest + trail).drop_last() =~= rest + trail.drop_last());
        lemma_trim_end_skips(rest, trail.drop_last());
    } else {
        assert(rest + trail =~= rest);
    }
}

/// Trimming takes whitespace, and nothing else, from both ends of a text, and
/// takes all of it.
pub proof fn lemma_trimmed_is_trim_of(s: Seq<char>)
    ensures
        is_trim_of(trimmed(s), s),
{
    let middle = trim_start(s);
    let t = trimmed(s);
    let lead = lemma_trim_start_splits(s);
    let trail = lemma_trim_end_splits(middle);
    assert(lead + t + trail =~= s);
    if t.len() > 0 {
        assert(t.first() == (t + trail).first());
    }
}

/// Only one text is a trim of `s`: the one that `trimmed` gives.
pub proof fn lemma_trim_is_unique(t: Seq<char>, s: Seq<char>)
    requires
        is_trim_of(t, s),
    ensures
        t == trimmed(s),
{
    let (lead, trail) = choose|lead: Seq<char>, trail: Seq<char>|
        all_whitespace(lead) && all_whitespace(trail) && #[trigger] (lead + t + trail) == s;
    assert(lead + t + trail =~= lead + (t + trail));
    lemma_trim_start_skips(lead, t + trail);
    if t.len() == 0 {
        assert(t + trail =~= trail + t);
        lemma_trim_start_skips(trail, t);
    } else {
        assert((t + trail).first() == t.first());
        lemma_trim_end_skips(t, trail);
    }
}

/// Trimming leaves nothing exactly when the text is whitespace throughout,
/// which the empty text is.
pub proof fn lemma_trimmed_empty_iff_blank(s: Seq<char>)
    ensures
        trimmed(s).len() == 0 <==> all_whitespace(s),
{
    lemma_trimmed_is_trim_of(s);
    if all_whitespace(s) {
        assert(s + Seq::<char>::empty() + Seq::<char>::empty() =~= s);
        assert(all_whitespace(Seq::<char>::empty()));
        assert(is_trim_of(Seq::<char>::empty(), s));
        lemma_trim_is_unique(Seq::empty(), s);
    } else {
        let i = choose|i: int| 0 <= i < s.len() && !is_whitespace(#[trigger] s[i]);
        if trimmed(s).len() == 0 {
            let (lead, trail) = choose|lead: Seq<char>, trail: Seq<char>|
                all_whitespace(lead) && all_whitespace(trail)
                    && #[trigger] (lead + trimmed(s) + trail) == s;
            if i < lead.len() {
                assert(s[i] == lead[i]);
            } else {
                assert(s[i] == trail[i - lead.len()]);
            }
        }
    }
}

} // verus!
