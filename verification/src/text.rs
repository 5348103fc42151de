//! Text as sequences of characters: whitespace, trimming, substring search
//! and decimal numerals, each with the mathematical function it computes.

use vstd::prelude::*;

verus! {

/// The characters that count as whitespace: those that carry the Unicode
/// property `White_Space`.
pub open spec fn is_whitespace(c: char) -> bool {
    let n = c as u32;
    ||| 0x09 <= n <= 0x0D
    ||| n == 0x20
    ||| n == 0x85
    ||| n == 0xA0
    ||| n == 0x1680
    ||| 0x2000 <= n <= 0x200A
    ||| n == 0x2028
    ||| n == 0x2029
    ||| n == 0x202F
    ||| n == 0x205F
    ||| n == 0x3000
}

/// `s` without its leading whitespace.
pub open spec fn trim_start(s: Seq<char>) -> Seq<char>
    decreases s.len(),
{
    if s.len() > 0 && is_whitespace(s.first()) {
        trim_start(s.drop_first())
    } else {
        s
    }
}

/// `s` without its trailing whitespace.
pub open spec fn trim_end(s: Seq<char>) -> Seq<char>
    decreases s.len(),
{
    if s.len() > 0 && is_whitespace(s.last()) {
        trim_end(s.drop_last())
    } else {
        s
    }
}

/// `s` without leading and trailing whitespace.
pub open spec fn trim(s: Seq<char>) -> Seq<char> {
    trim_end(trim_start(s))
}

/// Whether `needle` occurs in `hay` as a contiguous run of characters.
pub open spec fn contains(hay: Seq<char>, needle: Seq<char>) -> bool {
    exists|i: int| occurs_at(hay, needle, i)
}

/// Whether `needle` occurs in `hay` starting at index `i`.
pub open spec fn occurs_at(hay: Seq<char>, needle: Seq<char>, i: int) -> bool {
    &&& 0 <= i
    &&& i + needle.len() <= hay.len()
    &&& hay.subrange(i, i + needle.len()) == needle
}

/// The character that writes the decimal digit `d`.
pub open spec fn digit_char(d: int) -> char {
    if d == 0 {
        '0'
    } else if d == 1 {
        '1'
    } else if d == 2 {
        '2'
    } else if d == 3 {
        '3'
    } else if d == 4 {
        '4'
    } else if d == 5 {
        '5'
    } else if d == 6 {
        '6'
    } else if d == 7 {
        '7'
    } else if d == 8 {
        '8'
    } else {
        '9'
    }
}

/// The decimal numeral of a natural number, without leading zeros.
pub open spec fn decimal_nat(n: nat) -> Seq<char>
    decreases n,
{
    if n < 10 {
        seq![digit_char(n as int)]
    } else {
        decimal_nat(n / 10).push(digit_char((n % 10) as int))
    }
}

/// The decimal numeral of an integer, with a minus sign where it is negative.
pub open spec fn decimal(n: int) -> Seq<char> {
    if n < 0 {
        seq!['-'] + decimal_nat((-n) as nat)
    } else {
        decimal_nat(n as nat)
    }
}

/// Tells whether a character is whitespace.
pub fn char_is_whitespace(c: char) -> (b: bool)
    ensures
        b == is_whitespace(c),
{
    let n: u32 = c as u32;
    (0x09 <= n && n <= 0x0D) || n == 0x20 || n == 0x85 || n == 0xA0 || n == 0x1680 || (0x2000 <= n
        && n <= 0x200A) || n == 0x2028 || n == 0x2029 || n == 0x202F || n == 0x205F || n == 0x3000
}

/// The characters of a string, in order.
pub fn chars_of(s: &str) -> (v: Vec<char>)
    ensures
        v@ == s@,
{
    let mut v: Vec<char> = Vec::new();
    for c in it: s.chars()
        invariant
            v@ == it.seq().take(it.index() as int),
            it.seq() == s@,
    {
        v.push(c);
    }
    v
}

/// If the first `k` characters of `s` are whitespace and the next one, if
/// there is one, is not, trimming the start leaves what follows them.
pub proof fn lemma_trim_start_at(s: Seq<char>, k: int)
    requires
        0 <= k <= s.len(),
        forall|j: int| 0 <= j < k ==> is_whitespace(#[trigger] s[j]),
        k < s.len() ==> !is_whitespace(s[k]),
    ensures
        trim_start(s) == s.subrange(k, s.len() as int),
    decreases k,
{
    if k == 0 {
        assert(s.subrange(0, s.len() as int) =~= s);
    } else {
        let rest = s.drop_first();
        assert forall|j: int| 0 <= j < k - 1 implies is_whitespace(#[trigger] rest[j]) by {
            assert(rest[j] == s[j + 1]);
        }
        lemma_trim_start_at(rest, k - 1);
        assert(rest.subrange(k - 1, rest.len() as int) =~= s.subrange(k, s.len() as int));
    }
}

/// If the characters of `s` from index `k` on are whitespace and the one
/// before them, if there is one, is not, trimming the end leaves what
/// precedes them.
pub proof fn lemma_trim_end_at(s: Seq<char>, k: int)
    requires
        0 <= k <= s.len(),
        forall|j: int| k <= j < s.len() ==> is_whitespace(#[trigger] s[j]),
        k > 0 ==> !is_whitespace(s[k - 1]),
    ensures
        trim_end(s) == s.subrange(0, k),
    decreases s.len() - k,
{
    if k == s.len() {
        assert(s.subrange(0, k) =~= s);
    } else {
        let rest = s.drop_last();
        assert forall|j: int| k <= j < rest.len() implies is_whitespace(#[trigger] rest[j]) by {
            assert(rest[j] == s[j]);
        }
        lemma_trim_end_at(rest, k);
        assert(rest.subrange(0, k) =~= s.subrange(0, k));
    }
}

/// Whether a text holds nothing but whitespace characters.
pub open spec fn all_whitespace(s: Seq<char>) -> bool {
    forall|i: int| 0 <= i < s.len() ==> is_whitespace(#[trigger] s[i])
}

/// Whitespace before a text does not change what trimming the start leaves.
pub proof fn lemma_trim_start_skips(space: Seq<char>, s: Seq<char>)
    requires
        all_whitespace(space),
    ensures
        trim_start(space + s) == trim_start(s),
    decreases space.len(),
{
    if space.len() == 0 {
        assert(space + s =~= s);
    } else {
        let whole = space + s;
        assert(whole.first() == space[0]);
        assert(whole.drop_first() =~= space.drop_first() + s);
        assert forall|i: int| 0 <= i < space.drop_first().len() implies is_whitespace(
            #[trigger] space.drop_first()[i],
        ) by {
            assert(space.drop_first()[i] == space[i + 1]);
        }
        lemma_trim_start_skips(space.drop_first(), s);
    }
}

/// Whitespace after a text does not change what trimming the end leaves.
pub proof fn lemma_trim_end_skips(s: Seq<char>, space: Seq<char>)
    requires
        all_whitespace(space),
    ensures
        trim_end(s + space) == trim_end(s),
    decreases space.len(),
{
    if space.len() == 0 {
        assert(s + space =~= s);
    } else {
        let whole = s + space;
        assert(whole.last() == space.last());
        assert(whole.drop_last() =~= s + space.drop_last());
        assert forall|i: int| 0 <= i < space.drop_last().len() implies is_whitespace(
            #[trigger] space.drop_last()[i],
        ) by {
            assert(space.drop_last()[i] == space[i]);
        }
        lemma_trim_end_skips(s, space.drop_last());
    }
}

/// Trimming the start of a text leaves nothing where the text is all
/// whitespace, and otherwise leaves a text that begins with a character that
/// is no whitespace and that is an end of the text.
pub proof fn lemma_trim_start_shape(s: Seq<char>)
    ensures
        all_whitespace(s) ==> trim_start(s).len() == 0,
        !all_whitespace(s) ==> trim_start(s).len() > 0 && !is_whitespace(trim_start(s).first()),
        exists|k: int| 0 <= k <= s.len() && trim_start(s) == s.subrange(k, s.len() as int),
    decreases s.len(),
{
    if s.len() > 0 && is_whitespace(s.first()) {
        let rest = s.drop_first();
        lemma_trim_start_shape(rest);
        let k = choose|k: int| 0 <= k <= rest.len() && trim_start(rest) == rest.subrange(
            k,
            rest.len() as int,
        );
        assert(rest.subrange(k, rest.len() as int) =~= s.subrange(k + 1, s.len() as int));
        if all_whitespace(s) {
            assert forall|i: int| 0 <= i < rest.len() implies is_whitespace(#[trigger] rest[i]) by {
                assert(rest[i] == s[i + 1]);
            }
        } else {
            let bad = choose|i: int| 0 <= i < s.len() && !is_whitespace(#[trigger] s[i]);
            assert(bad > 0);
            assert(rest[bad - 1] == s[bad]);
            assert(!all_whitespace(rest));
        }
    } else {
        assert(s.subrange(0, s.len() as int) =~= s);
        if s.len() > 0 {
            assert(!is_whitespace(s[0]));
        }
    }
}

/// Whitespace around a text does not change what trimming leaves.
pub proof fn lemma_trim_skips(before: Seq<char>, s: Seq<char>, after: Seq<char>)
    requires
        all_whitespace(before),
        all_whitespace(after),
    ensures
        trim(before + s + after) == trim(s),
{
    assert(before + s + after =~= before + (s + after));
    lemma_trim_start_skips(before, s + after);
    lemma_trim_start_shape(s);
    if all_whitespace(s) {
        assert forall|i: int| 0 <= i < (s + after).len() implies is_whitespace(
            #[trigger] (s + after)[i],
        ) by {
            if i < s.len() {
                assert((s + after)[i] == s[i]);
            } else {
                assert((s + after)[i] == after[i - s.len()]);
            }
        }
        lemma_trim_start_shape(s + after);
    } else {
        let k = choose|k: int| 0 <= k <= s.len() && trim_start(s) == s.subrange(k, s.len() as int);
        let head = s.subrange(0, k);
        let kept = s.subrange(k, s.len() as int);
        // The characters before `kept` are whitespace: trimming them off `s` leaves `kept`.
        lemma_trim_start_prefix(s, k);
        assert(s + after =~= head + (kept + after));
        lemma_trim_start_skips(head, kept + after);
        assert((kept + after).first() == kept.first());
        assert(trim_start(kept + after) == kept + after);
        lemma_trim_end_skips(kept, after);
    }
}

/// Where trimming the start of a text leaves a proper end of it, what was
/// cut off is whitespace.
pub proof fn lemma_trim_start_prefix(s: Seq<char>, k: int)
    requires
        0 <= k <= s.len(),
        trim_start(s) == s.subrange(k, s.len() as int),
    ensures
        all_whitespace(s.subrange(0, k)),
    decreases s.len(),
{
    if k > 0 {
        if s.len() > 0 && is_whitespace(s.first()) {
            let rest = s.drop_first();
            assert(s.subrange(k, s.len() as int) =~= rest.subrange(k - 1, rest.len() as int));
            lemma_trim_start_prefix(rest, k - 1);
            assert forall|i: int| 0 <= i < k implies is_whitespace(
                #[trigger] s.subrange(0, k)[i],
            ) by {
                if i > 0 {
                    assert(s.subrange(0, k)[i] == rest.subrange(0, k - 1)[i - 1]);
                }
            }
        } else {
            // Nothing is cut off, so the end of length `len - k` would be the whole text.
            assert(trim_start(s) == s);
            assert(s.subrange(k, s.len() as int).len() == s.len() - k);
        }
    }
}

/// Trimming the end of a text leaves nothing where the text is all
/// whitespace, and otherwise leaves a text that ends with a character that is
/// no whitespace; what it leaves is a beginning of the text, and what it cuts
/// off is whitespace.
pub proof fn lemma_trim_end_shape(s: Seq<char>)
    ensures
        all_whitespace(s) ==> trim_end(s).len() == 0,
        !all_whitespace(s) ==> trim_end(s).len() > 0 && !is_whitespace(trim_end(s).last()),
        exists|k: int|
            0 <= k <= s.len() && trim_end(s) == s.subrange(0, k) && all_whitespace(
                s.subrange(k, s.len() as int),
            ),
    decreases s.len(),
{
    if s.len() > 0 && is_whitespace(s.last()) {
        let rest = s.drop_last();
        lemma_trim_end_shape(rest);
        let k = choose|k: int|
            0 <= k <= rest.len() && trim_end(rest) == rest.subrange(0, k) && all_whitespace(
                rest.subrange(k, rest.len() as int),
            );
        assert(rest.subrange(0, k) =~= s.subrange(0, k));
        assert forall|i: int| 0 <= i < s.len() - k implies is_whitespace(
            #[trigger] s.subrange(k, s.len() as int)[i],
        ) by {
            if i < rest.len() - k {
                assert(s.subrange(k, s.len() as int)[i] == rest.subrange(k, rest.len() as int)[i]);
            }
        }
        if all_whitespace(s) {
            assert forall|i: int| 0 <= i < rest.len() implies is_whitespace(#[trigger] rest[i]) by {
                assert(rest[i] == s[i]);
            }
        } else {
            let bad = choose|i: int| 0 <= i < s.len() && !is_whitespace(#[trigger] s[i]);
            assert(bad < s.len() - 1);
            assert(rest[bad] == s[bad]);
            assert(!all_whitespace(rest));
        }
    } else {
        assert(s.subrange(0, s.len() as int) =~= s);
        assert(s.subrange(s.len() as int, s.len() as int).len() == 0);
        if s.len() > 0 {
            assert(!is_whitespace(s[s.len() - 1]));
        }
    }
}

/// A text that is empty, or begins and ends with characters that are no
/// whitespace, is left as it is by trimming.
pub proof fn lemma_trim_keeps(s: Seq<char>)
    requires
        s.len() > 0 ==> !is_whitespace(s.first()) && !is_whitespace(s.last()),
    ensures
        trim(s) == s,
{
}

/// The parts of a text with respect to trimming: whitespace, then what
/// trimming leaves, then whitespace again; and what trimming leaves is empty
/// or begins and ends with characters that are no whitespace.
pub proof fn lemma_trim_parts(s: Seq<char>) -> (parts: (Seq<char>, Seq<char>))
    ensures
        all_whitespace(parts.0),
        all_whitespace(parts.1),
        s == parts.0 + trim(s) + parts.1,
        trim(s).len() > 0 ==> !is_whitespace(trim(s).first()) && !is_whitespace(trim(s).last()),
{
    lemma_trim_start_shape(s);
    let k = choose|k: int| 0 <= k <= s.len() && trim_start(s) == s.subrange(k, s.len() as int);
    lemma_trim_start_prefix(s, k);
    let started = trim_start(s);
    lemma_trim_end_shape(started);
    let j = choose|j: int|
        0 <= j <= started.len() && trim_end(started) == started.subrange(0, j) && all_whitespace(
            started.subrange(j, started.len() as int),
        );
    let before = s.subrange(0, k);
    let after = started.subrange(j, started.len() as int);
    assert(s =~= before + trim(s) + after);
    if trim(s).len() > 0 {
        assert(!all_whitespace(started)) by {
            if all_whitespace(started) {
                assert(trim_end(started).len() == 0);
            }
        }
        assert(!all_whitespace(s)) by {
            if all_whitespace(s) {
                assert(started.len() == 0);
            }
        }
        assert(trim(s).first() == started.first());
    }
    (before, after)
}

/// The bounds of `v` without leading and trailing whitespace: the trimmed
/// text is `v[start..end]`.
pub fn trim_bounds(v: &Vec<char>) -> (r: (usize, usize))
    ensures
        r.0 <= r.1 <= v.len(),
        trim(v@) == v@.subrange(r.0 as int, r.1 as int),
{
    let n = v.len();
    let mut start: usize = 0;
    while start < n && char_is_whitespace(v[start])
        invariant
            n == v.len(),
            start <= n,
            forall|j: int| 0 <= j < start ==> is_whitespace(#[trigger] v@[j]),
        decreases n - start,
    {
        start += 1;
    }
    let mut end: usize = n;
    while end > start && char_is_whitespace(v[end - 1])
        invariant
            n == v.len(),
            start <= end <= n,
            forall|j: int| end <= j < n ==> is_whitespace(#[trigger] v@[j]),
        decreases end,
    {
        end -= 1;
    }
    proof {
        let s = v@;
        lemma_trim_start_at(s, start as int);
        let t = s.subrange(start as int, n as int);
        assert forall|j: int| end - start <= j < t.len() implies is_whitespace(#[trigger] t[j]) by {
            assert(t[j] == s[j + start]);
        }
        if end > start {
            assert(t[end - start - 1] == s[end - 1]);
        } else {
            // every character from `start` on is whitespace, or none is left
            assert(end == start);
        }
        lemma_trim_end_at(t, end - start);
        assert(t.subrange(0, end - start) =~= s.subrange(start as int, end as int));
    }
    (start, end)
}

/// Whether `needle` occurs in `hay`.
pub fn contains_text(hay: &str, needle: &str) -> (b: bool)
    ensures
        b == contains(hay@, needle@),
{
    let h = chars_of(hay);
    let p = chars_of(needle);
    if p.len() > h.len() {
        assert(forall|i: int| !occurs_at(h@, p@, i));
        return false;
    }
    let last = h.len() - p.len();
    let mut i: usize = 0;
    while i <= last
        invariant
            h@ == hay@,
            p@ == needle@,
            p.len() <= h.len(),
            last == h.len() - p.len(),
            i <= last + 1,
            forall|k: int| 0 <= k < i ==> !occurs_at(h@, p@, k),
        decreases last + 1 - i,
    {
        let mut j: usize = 0;
        while j < p.len() && h[i + j] == p[j]
            invariant
                p.len() <= h.len(),
                last == h.len() - p.len(),
                i <= last,
                j <= p.len(),
                forall|k: int| 0 <= k < j ==> h@[i + k] == p@[k],
            decreases p.len() - j,
        {
            j += 1;
        }
        if j == p.len() {
            assert(h@.subrange(i as int, i + p.len()) =~= p@);
            assert(occurs_at(h@, p@, i as int));
            return true;
        }
        assert(!occurs_at(h@, p@, i as int)) by {
            if occurs_at(h@, p@, i as int) {
                assert(h@.subrange(i as int, i + p.len())[j as int] == p@[j as int]);
            }
        }
        i += 1;
    }
    assert forall|k: int| !occurs_at(h@, p@, k) by {
        if 0 <= k && k + p@.len() <= h@.len() {
            assert(k < i);
        }
    }
    false
}

/// Whether two texts hold the same characters.
pub fn same_text(a: &str, b: &str) -> (r: bool)
    ensures
        r == (a@ == b@),
{
    let x = chars_of(a);
    let y = chars_of(b);
    assert(x@.subrange(0, x.len() as int) =~= x@);
    assert(y@.subrange(0, y.len() as int) =~= y@);
    same_chars(&x, 0, x.len(), &y, 0, y.len())
}

/// Whether `x[x_from..x_to]` and `y[y_from..y_to]` hold the same characters.
pub fn same_chars(
    x: &Vec<char>,
    x_from: usize,
    x_to: usize,
    y: &Vec<char>,
    y_from: usize,
    y_to: usize,
) -> (r: bool)
    requires
        x_from <= x_to <= x.len(),
        y_from <= y_to <= y.len(),
    ensures
        r == (x@.subrange(x_from as int, x_to as int) == y@.subrange(y_from as int, y_to as int)),
{
    let ghost a = x@.subrange(x_from as int, x_to as int);
    let ghost b = y@.subrange(y_from as int, y_to as int);
    if x_to - x_from != y_to - y_from {
        assert(a.len() != b.len());
        return false;
    }
    let n = x_to - x_from;
    let mut i: usize = 0;
    while i < n
        invariant
            x_from <= x_to <= x.len(),
            y_from <= y_to <= y.len(),
            n == x_to - x_from,
            n == y_to - y_from,
            i <= n,
            a == x@.subrange(x_from as int, x_to as int),
            b == y@.subrange(y_from as int, y_to as int),
            forall|k: int| 0 <= k < i ==> a[k] == b[k],
        decreases n - i,
    {
        if x[x_from + i] != y[y_from + i] {
            assert(a[i as int] != b[i as int]);
            return false;
        }
        i += 1;
    }
    assert(a =~= b);
    true
}

/// The one-character text of a decimal digit.
fn digit_text(d: u64) -> (s: &'static str)
    requires
        d < 10,
    ensures
        s@ == seq![digit_char(d as int)],
{
    proof {
        reveal_strlit("0");
        reveal_strlit("1");
        reveal_strlit("2");
        reveal_strlit("3");
        reveal_strlit("4");
        reveal_strlit("5");
        reveal_strlit("6");
        reveal_strlit("7");
        reveal_strlit("8");
        reveal_strlit("9");
    }
    let s = if d == 0 {
        "0"
    } else if d == 1 {
        "1"
    } else if d == 2 {
        "2"
    } else if d == 3 {
        "3"
    } else if d == 4 {
        "4"
    } else if d == 5 {
        "5"
    } else if d == 6 {
        "6"
    } else if d == 7 {
        "7"
    } else if d == 8 {
        "8"
    } else {
        "9"
    };
    assert(s@ =~= seq![digit_char(d as int)]);
    s
}

/// Appends the decimal numeral of `n` to `out`.
fn push_decimal(out: &mut String, n: u64)
    ensures
        final(out)@ == old(out)@ + decimal_nat(n as nat),
    decreases n,
{
    if n >= 10 {
        push_decimal(out, n / 10);
        out.append(digit_text(n % 10));
        assert(final(out)@ =~= old(out)@ + decimal_nat(n as nat));
    } else {
        out.append(digit_text(n));
    }
}

/// The decimal numeral of `n`, as `n` is printed.
pub fn decimal_text(n: i32) -> (s: String)
    ensures
        s@ == decimal(n as int),
{
    let mut out = String::new();
    if n < 0 {
        proof {
            reveal_strlit("-");
        }
        out.append("-");
        let magnitude: u64 = if n == i32::MIN {
            2147483648u64
        } else {
            (-n) as u64
        };
        push_decimal(&mut out, magnitude);
        assert(out@ =~= decimal(n as int));
    } else {
        push_decimal(&mut out, n as u64);
        assert(out@ =~= decimal(n as int));
    }
    out
}

/// The decimal numeral of a count, as the count is printed.
pub fn count_text(n: usize) -> (s: String)
    ensures
        s@ == decimal_nat(n as nat),
{
    let mut out = String::new();
    push_decimal(&mut out, n as u64);
    assert(out@ =~= decimal_nat(n as nat));
    out
}

/// The text `a` followed by the text `b`.
pub fn joined(a: &str, b: &str) -> (s: String)
    ensures
        s@ == a@ + b@,
{
    let mut out = String::new();
    out.append(a);
    out.append(b);
    assert(out@ =~= a@ + b@);
    out
}

/// Whether a text holds nothing but whitespace.
pub open spec fn blank(s: Seq<char>) -> bool {
    trim(s).len() == 0
}

/// Whether a text holds nothing but whitespace.
pub fn is_blank(text: &str) -> (b: bool)
    ensures
        b == blank(text@),
{
    let chars = chars_of(text);
    let (start, end) = trim_bounds(&chars);
    start == end
}

/// Whether the character `c` occurs in `s`.
pub open spec fn has_char(s: Seq<char>, c: char) -> bool {
    exists|i: int| 0 <= i < s.len() && s[i] == c
}

/// Whether the character `c` occurs in the text.
pub fn contains_char(text: &str, c: char) -> (b: bool)
    ensures
        b == has_char(text@, c),
{
    let chars = chars_of(text);
    let mut i: usize = 0;
    while i < chars.len()
        invariant
            chars@ == text@,
            i <= chars.len(),
            forall|k: int| 0 <= k < i ==> chars@[k] != c,
        decreases chars.len() - i,
    {
        if chars[i] == c {
            return true;
        }
        i += 1;
    }
    false
}

/// Whether the text begins with the character `c`.
pub fn starts_with_char(text: &str, c: char) -> (b: bool)
    ensures
        b == (text@.len() > 0 && text@[0] == c),
{
    let mut it = text.chars();
    match it.next() {
        Some(first) => first == c,
        None => false,
    }
}

/// The number of bytes that a text takes in UTF-8, as the length of a
/// string reports it.
pub open spec fn byte_length(s: Seq<char>) -> usize {
    vstd::utf8::encode_utf8(s).len() as usize
}

/// Whether `std` counts the character as lowercase: whether it carries the
/// Unicode property `Lowercase`.
pub uninterp spec fn lowercase(c: char) -> bool;

/// Whether `std` counts the character as a letter or a digit: whether it
/// carries the Unicode property `Alphabetic` or is a number of one of the
/// general categories `Nd`, `Nl` and `No`.
pub uninterp spec fn alphanumeric(c: char) -> bool;

/// `char::is_lowercase`. The answer depends on the character alone.
#[verifier::external_body]
pub(crate) fn char_is_lowercase(c: char) -> (b: bool)
    ensures
        b == lowercase(c),
{
    c.is_lowercase()
}

/// `char::is_alphanumeric`. The answer depends on the character alone.
#[verifier::external_body]
pub(crate) fn char_is_alphanumeric(c: char) -> (b: bool)
    ensures
        b == alphanumeric(c),
{
    c.is_alphanumeric()
}

/// Whether every character of `s` meets `rule`.
pub open spec fn all_chars(s: Seq<char>, rule: spec_fn(char) -> bool) -> bool {
    forall|i: int| 0 <= i < s.len() ==> rule(#[trigger] s[i])
}

/// A character of an identifier: lowercase, and a letter, a digit, an
/// underscore or a hyphen.
pub open spec fn identifier_char(c: char) -> bool {
    lowercase(c) && (alphanumeric(c) || c == '_' || c == '-')
}

/// A character of a slug: a letter, a digit or a hyphen.
pub open spec fn slug_char(c: char) -> bool {
    alphanumeric(c) || c == '-'
}

/// Whether a text is an identifier: every character is lowercase and a
/// letter, a digit, an underscore or a hyphen. The empty text is one.
pub open spec fn identifier(s: Seq<char>) -> bool {
    all_chars(s, |c: char| identifier_char(c))
}

/// Whether a text is a slug: every character is a letter, a digit or a
/// hyphen. The empty text is one.
pub open spec fn slug(s: Seq<char>) -> bool {
    all_chars(s, |c: char| slug_char(c))
}

/// Whether a text is an identifier.
pub fn is_identifier(text: &str) -> (b: bool)
    ensures
        b == identifier(text@),
{
    let chars = chars_of(text);
    let mut i: usize = 0;
    while i < chars.len()
        invariant
            chars@ == text@,
            i <= chars.len(),
            forall|k: int| 0 <= k < i ==> identifier_char(#[trigger] chars@[k]),
        decreases chars.len() - i,
    {
        let c = chars[i];
        if !(char_is_lowercase(c) && (char_is_alphanumeric(c) || c == '_' || c == '-')) {
            assert(!identifier_char(text@[i as int]));
            return false;
        }
        i += 1;
    }
    true
}

/// Whether a text is a slug.
pub fn is_slug(text: &str) -> (b: bool)
    ensures
        b == slug(text@),
{
    let chars = chars_of(text);
    let mut i: usize = 0;
    while i < chars.len()
        invariant
            chars@ == text@,
            i <= chars.len(),
            forall|k: int| 0 <= k < i ==> slug_char(#[trigger] chars@[k]),
        decreases chars.len() - i,
    {
        let c = chars[i];
        if !(char_is_alphanumeric(c) || c == '-') {
            assert(!slug_char(text@[i as int]));
            return false;
        }
        i += 1;
    }
    true
}

} // verus!
