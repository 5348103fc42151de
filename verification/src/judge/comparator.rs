//! The output comparator: two outputs match when they are equal after
//! trimming and after dropping every carriage return.

use crate::text::all_whitespace;
use crate::text::is_whitespace;
use crate::text::lemma_trim_keeps;
use crate::text::lemma_trim_parts;
use crate::text::chars_of;
use crate::text::lemma_trim_skips;
use crate::text::same_chars;
use crate::text::trim;
use crate::text::trim_bounds;
use vstd::prelude::*;

verus! {

/// Whether a character is kept when carriage returns are dropped.
pub open spec fn kept() -> spec_fn(char) -> bool {
    |c: char| c != '\r'
}

/// `s` without its carriage returns.
pub open spec fn without_carriage_returns(s: Seq<char>) -> Seq<char> {
    s.filter(kept())
}

/// An output as it is compared: trimmed, then without carriage returns.
pub open spec fn normalized(s: Seq<char>) -> Seq<char> {
    without_carriage_returns(trim(s))
}

/// Whether an actual output counts as the expected one.
pub open spec fn outputs_match(expected: Seq<char>, actual: Seq<char>) -> bool {
    normalized(expected) == normalized(actual)
}

/// The characters of `v[from..to]` other than carriage returns, in order.
fn strip_carriage_returns(v: &Vec<char>, from: usize, to: usize) -> (out: Vec<char>)
    requires
        from <= to <= v.len(),
    ensures
        out@ == without_carriage_returns(v@.subrange(from as int, to as int)),
{
    let mut out: Vec<char> = Vec::new();
    let mut i: usize = from;
    proof {
        reveal(Seq::filter);
        assert(v@.subrange(from as int, from as int) =~= Seq::<char>::empty());
    }
    while i < to
        invariant
            from <= i <= to <= v.len(),
            out@ == without_carriage_returns(v@.subrange(from as int, i as int)),
        decreases to - i,
    {
        let c = v[i];
        proof {
            reveal(Seq::filter);
            let longer = v@.subrange(from as int, i + 1);
            assert(longer.drop_last() =~= v@.subrange(from as int, i as int));
            assert(longer.last() == c);
        }
        if c != '\r' {
            out.push(c);
        }
        i += 1;
    }
    out
}

/// The characters of a text as it is compared.
fn normalize(text: &str) -> (out: Vec<char>)
    ensures
        out@ == normalized(text@),
{
    let chars = chars_of(text);
    let (start, end) = trim_bounds(&chars);
    strip_carriage_returns(&chars, start, end)
}

/// Compares an actual output with the expected one: leading and trailing
/// whitespace and all carriage returns are disregarded, everything else must
/// be equal character by character.
pub fn compare_output(expected: &str, actual: &str) -> (same: bool)
    ensures
        same == outputs_match(expected@, actual@),
{
    let e = normalize(expected);
    let a = normalize(actual);
    assert(e@.subrange(0, e.len() as int) =~= e@);
    assert(a@.subrange(0, a.len() as int) =~= a@);
    same_chars(&e, 0, e.len(), &a, 0, a.len())
}

/// Matching is an equivalence: every output matches itself, matching does
/// not depend on which output is called the expected one, and two outputs
/// that match a third match each other.
pub proof fn law_matching_is_an_equivalence(a: Seq<char>, b: Seq<char>, c: Seq<char>)
    ensures
        outputs_match(a, a),
        outputs_match(a, b) == outputs_match(b, a),
        outputs_match(a, b) && outputs_match(b, c) ==> outputs_match(a, c),
{
}

/// Whitespace around an output does not count: an output with whitespace
/// before and after it matches whatever the output itself matches.
pub proof fn law_outer_whitespace_is_disregarded(
    expected: Seq<char>,
    before: Seq<char>,
    actual: Seq<char>,
    after: Seq<char>,
)
    requires
        all_whitespace(before),
        all_whitespace(after),
    ensures
        outputs_match(expected, before + actual + after) == outputs_match(expected, actual),
{
    lemma_trim_skips(before, actual, after);
}

/// Dropping carriage returns from whitespace leaves whitespace.
proof fn lemma_whitespace_stays(space: Seq<char>)
    requires
        all_whitespace(space),
    ensures
        all_whitespace(without_carriage_returns(space)),
    decreases space.len(),
{
    reveal(Seq::filter);
    if space.len() > 0 {
        let rest = space.drop_last();
        assert forall|i: int| 0 <= i < rest.len() implies is_whitespace(#[trigger] rest[i]) by {
            assert(rest[i] == space[i]);
        }
        lemma_whitespace_stays(rest);
        let dropped = without_carriage_returns(space);
        assert forall|i: int| 0 <= i < dropped.len() implies is_whitespace(
            #[trigger] dropped[i],
        ) by {
            if i < without_carriage_returns(rest).len() {
                assert(dropped[i] == without_carriage_returns(rest)[i]);
            } else {
                assert(dropped[i] == space.last());
                assert(space.last() == space[space.len() - 1]);
            }
        }
    }
}

/// Dropping carriage returns from a text that begins and ends with
/// characters other than carriage returns keeps its first and its last
/// character.
proof fn lemma_ends_stay(s: Seq<char>)
    requires
        s.len() > 0,
        s.first() != '\r',
        s.last() != '\r',
    ensures
        without_carriage_returns(s).len() > 0,
        without_carriage_returns(s).first() == s.first(),
        without_carriage_returns(s).last() == s.last(),
{
    reveal(Seq::filter);
    let first = seq![s.first()];
    assert(first + s.drop_first() =~= s);
    Seq::filter_distributes_over_add(first, s.drop_first(), kept());
    assert(first.drop_last() =~= Seq::<char>::empty());
    assert(first.filter(kept()) =~= first);
}

/// An output as it is compared can as well be had by dropping the carriage
/// returns first and trimming afterwards.
pub proof fn lemma_normalized_either_way(s: Seq<char>)
    ensures
        normalized(s) == trim(without_carriage_returns(s)),
{
    let (before, after) = lemma_trim_parts(s);
    let core = trim(s);
    Seq::filter_distributes_over_add(before + core, after, kept());
    Seq::filter_distributes_over_add(before, core, kept());
    lemma_whitespace_stays(before);
    lemma_whitespace_stays(after);
    lemma_trim_skips(
        without_carriage_returns(before),
        without_carriage_returns(core),
        without_carriage_returns(after),
    );
    if core.len() > 0 {
        lemma_ends_stay(core);
    } else {
        reveal(Seq::filter);
    }
    lemma_trim_keeps(without_carriage_returns(core));
}

/// Carriage returns do not count: an output with a carriage return put in
/// anywhere matches whatever the output without it matches.
pub proof fn law_carriage_returns_are_disregarded(
    expected: Seq<char>,
    before: Seq<char>,
    after: Seq<char>,
)
    ensures
        outputs_match(expected, before + seq!['\r'] + after) == outputs_match(
            expected,
            before + after,
        ),
{
    reveal(Seq::filter);
    let cr = seq!['\r'];
    lemma_normalized_either_way(before + cr + after);
    lemma_normalized_either_way(before + after);
    Seq::filter_distributes_over_add(before + cr, after, kept());
    Seq::filter_distributes_over_add(before, cr, kept());
    Seq::filter_distributes_over_add(before, after, kept());
    assert(cr.drop_last() =~= Seq::<char>::empty());
    assert(cr.drop_last().filter(kept()) =~= Seq::<char>::empty());
    assert(cr.last() == '\r');
    assert(!kept()(cr.last()));
    assert(cr.filter(kept()) =~= Seq::<char>::empty());
    assert(without_carriage_returns(before) + Seq::<char>::empty() =~= without_carriage_returns(
        before,
    ));
}

} // verus!
