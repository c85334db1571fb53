//! Text as sequences of characters: white space, trimming and decimal numerals.

use vstd::prelude::*;
use vstd::string::StrSliceExecFns;

verus! {

/// `String::push` of `std`: the text afterwards is the text before with `c` as one more
/// character at its end.
pub assume_specification[ String::push ](text: &mut String, c: char)
    ensures
        final(text)@ == old(text)@.push(c),
;

/// The characters that carry Unicode's `White_Space` property.
pub open spec fn white_space(c: char) -> bool {
    let n = c as u32;
    ||| 0x09 <= n <= 0x0D
    ||| n == 0x20
    ||| n == 0x85
    ||| n == 0xA0
    ||| n == 0x1680
    ||| 0x2000 <= n <= 0x200A
    ||| n == 0x2028
    ||| n == 0x2029
    ||| n == 0x202F
    ||| n == 0x205F
    ||| n == 0x3000
}

/// `s` without the white space it begins with.
pub open spec fn trimmed_start(s: Seq<char>) -> Seq<char>
    decreases s.len(),
{
    if s.len() > 0 && white_space(s.first()) {
        trimmed_start(s.drop_first())
    } else {
        s
    }
}

/// `s` without the white space it ends with.
pub open spec fn trimmed_end(s: Seq<char>) -> Seq<char>
    decreases s.len(),
{
    if s.len() > 0 && white_space(s.last()) {
        trimmed_end(s.drop_last())
    } else {
        s
    }
}

/// `s` without the white space at either end.
pub open spec fn trimmed(s: Seq<char>) -> Seq<char> {
    trimmed_end(trimmed_start(s))
}

/// `s` is empty or made of white space alone.
pub open spec fn blank(s: Seq<char>) -> bool {
    forall|i: int| 0 <= i < s.len() ==> white_space(#[trigger] s[i])
}

/// Neither end of `s` is white space.
pub open spec fn tight(s: Seq<char>) -> bool {
    s.len() > 0 ==> !white_space(s.first()) && !white_space(s.last())
}

/// Dropping `a` leading white space characters, the next one being none, trims the start.
pub proof fn lemma_trimmed_start(s: Seq<char>, a: int)
    requires
        0 <= a <= s.len(),
        blank(s.take(a)),
        a < s.len() ==> !white_space(s[a]),
    ensures
        trimmed_start(s) == s.skip(a),
    decreases a,
{
    if a == 0 {
        assert(s.skip(0) == s);
    } else {
        assert(s.take(a)[0] == s[0]);
        let rest = s.drop_first();
        assert forall|i: int| 0 <= i < a - 1 implies white_space(#[trigger] rest.take(a - 1)[i]) by {
            assert(rest.take(a - 1)[i] == s.take(a)[i + 1]);
        }
        lemma_trimmed_start(rest, a - 1);
        assert(rest.skip(a - 1) == s.skip(a));
    }
}

/// Keeping `b` characters, the last of them no white space and all after it white space,
/// trims the end.
pub proof fn lemma_trimmed_end(s: Seq<char>, b: int)
    requires
        0 <= b <= s.len(),
        blank(s.skip(b)),
        b > 0 ==> !white_space(s[b - 1]),
    ensures
        trimmed_end(s) == s.take(b),
    decreases s.len() - b,
{
    if b == s.len() {
        assert(s.take(b) == s);
    } else {
        assert(s.skip(b)[s.len() - b - 1] == s.last());
        let rest = s.drop_last();
        assert forall|i: int| 0 <= i < rest.len() - b implies white_space(
            #[trigger] rest.skip(b)[i],
        ) by {
            assert(rest.skip(b)[i] == s.skip(b)[i]);
        }
        lemma_trimmed_end(rest, b);
        assert(rest.take(b) == s.take(b));
    }
}

/// The part of `s` between its first and its last character that is no white space is
/// what trimming leaves; where every character is white space, nothing is left.
pub proof fn lemma_trimmed_is_subrange(s: Seq<char>, a: int, b: int)
    requires
        0 <= a <= b <= s.len(),
        blank(s.take(a)),
        blank(s.skip(b)),
        tight(s.subrange(a, b)),
        a == b ==> a == s.len(),
    ensures
        trimmed(s) == s.subrange(a, b),
{
    if a < b {
        assert(s.subrange(a, b).first() == s[a]);
        assert(s.subrange(a, b).last() == s[b - 1]);
    }
    lemma_trimmed_start(s, a);
    let rest = s.skip(a);
    assert forall|i: int| 0 <= i < rest.len() - (b - a) implies white_space(
        #[trigger] rest.skip(b - a)[i],
    ) by {
        assert(rest.skip(b - a)[i] == s.skip(b)[i]);
    }
    if b > a {
        assert(rest[b - a - 1] == s[b - 1]);
    }
    lemma_trimmed_end(rest, b - a);
    assert(rest.take(b - a) == s.subrange(a, b));
}

/// Of a text that is white space alone, trimming leaves nothing.
pub proof fn lemma_trimmed_blank(s: Seq<char>)
    requires
        blank(s),
    ensures
        trimmed(s) == Seq::<char>::empty(),
{
    let n = s.len() as int;
    assert(s.take(n) == s);
    lemma_trimmed_is_subrange(s, n, n);
}

/// A text that neither begins nor ends with white space is left as it is.
pub proof fn lemma_trimmed_tight(s: Seq<char>)
    requires
        tight(s),
    ensures
        trimmed(s) == s,
{
    let n = s.len() as int;
    assert(s.subrange(0, n) == s);
    lemma_trimmed_is_subrange(s, 0, n);
}

/// White space around a text that has none at its own ends is all that trimming takes.
pub proof fn lemma_trimmed_padded(lead: Seq<char>, s: Seq<char>, trail: Seq<char>)
    requires
        blank(lead),
        blank(trail),
        tight(s),
        s.len() > 0,
    ensures
        trimmed(lead + s + trail) == s,
{
    let padded = lead + s + trail;
    let a = lead.len() as int;
    let b = a + s.len();
    assert(padded.take(a) == lead);
    assert(padded.skip(b) == trail);
    assert(padded.subrange(a, b) == s);
    lemma_trimmed_is_subrange(padded, a, b);
}

/// Trimming leaves a text that neither begins nor ends with white space.
pub proof fn lemma_trimmed_is_tight(s: Seq<char>)
    ensures
        tight(trimmed(s)),
        trimmed(s).len() <= s.len(),
{
    lemma_trimmed_start_shape(s);
    lemma_trimmed_end_shape(trimmed_start(s));
}

proof fn lemma_trimmed_start_shape(s: Seq<char>)
    ensures
        trimmed_start(s).len() <= s.len(),
        trimmed_start(s).len() > 0 ==> !white_space(trimmed_start(s).first()),
    decreases s.len(),
{
    if s.len() > 0 && white_space(s.first()) {
        lemma_trimmed_start_shape(s.drop_first());
    }
}

proof fn lemma_trimmed_end_shape(s: Seq<char>)
    ensures
        trimmed_end(s).len() <= s.len(),
        trimmed_end(s).len() > 0 ==> !white_space(trimmed_end(s).last()) && trimmed_end(
            s,
        ).first() == s.first(),
    decreases s.len(),
{
    if s.len() > 0 && white_space(s.last()) {
        lemma_trimmed_end_shape(s.drop_last());
    }
}

/// Whether `c` is white space.
pub fn is_whitespace(c: char) -> (b: bool)
    ensures
        b == white_space(c),
{
    let n: u32 = c as u32;
    (0x09 <= n && n <= 0x0D) || n == 0x20 || n == 0x85 || n == 0xA0 || n == 0x1680 || (0x2000 <= n
        && n <= 0x200A) || n == 0x2028 || n == 0x2029 || n == 0x202F || n == 0x205F || n == 0x3000
}

/// The part of `s` that is left when the white space at both ends is taken away.
pub fn trim(s: &str) -> (t: &str)
    ensures
        t@ == trimmed(s@),
{
    let n = s.unicode_len();
    let mut start: usize = 0;
    let mut end: usize = 0;
    let mut i: usize = 0;
    for c in it: s.chars()
        invariant
            it.seq() == s@,
            n == s@.len(),
            i == it.index(),
            start <= end <= i,
            blank(s@.take(start as int)),
            blank(s@.subrange(end as int, i as int)),
            tight(s@.subrange(start as int, end as int)),
            start == end ==> start == i,
    {
        let ghost seen = s@.subrange(end as int, i as int);
        if !is_whitespace(c) {
            end = i + 1;
        } else if start == end {
            start = i + 1;
            end = i + 1;
            assert forall|j: int| 0 <= j < start implies white_space(
                #[trigger] s@.take(start as int)[j],
            ) by {
                if j < i {
                    assert(s@.take(start as int)[j] == s@.take(i as int)[j]);
                }
            }
        } else {
            assert forall|j: int| 0 <= j < i + 1 - end implies white_space(
                #[trigger] s@.subrange(end as int, i + 1)[j],
            ) by {
                if j < i - end {
                    assert(s@.subrange(end as int, i + 1)[j] == seen[j]);
                }
            }
        }
        i = i + 1;
    }
    proof {
        assert(s@.skip(end as int) == s@.subrange(end as int, i as int));
        lemma_trimmed_is_subrange(s@, start as int, end as int);
    }
    s.substring_char(start, end)
}

/// The character that writes the digit `d` of a decimal numeral.
pub open spec fn digit(d: int) -> char
    recommends
        0 <= d < 10,
{
    (0x30 + d) as char
}

/// The decimal numeral of `n`: no sign and no leading zero, `0` written as one digit.
pub open spec fn decimal_nat(n: nat) -> Seq<char>
    decreases n,
{
    if n < 10 {
        seq![digit(n as int)]
    } else {
        decimal_nat(n / 10).push(digit((n % 10) as int))
    }
}

/// The decimal numeral of `n`, with a minus sign before it where `n` is negative.
pub open spec fn decimal(n: int) -> Seq<char> {
    if n < 0 {
        seq!['-'] + decimal_nat((-n) as nat)
    } else {
        decimal_nat(n as nat)
    }
}

/// Writes the decimal numeral of `n` at the end of `text`.
pub fn push_decimal(text: &mut String, n: u32)
    ensures
        final(text)@ == old(text)@ + decimal_nat(n as nat),
    decreases n,
{
    if n >= 10 {
        push_decimal(text, n / 10);
    }
    let d: u8 = (n % 10) as u8;
    text.push((0x30u8 + d) as char);
}

/// The decimal numeral of `n` as a string.
pub fn to_decimal(n: i32) -> (text: String)
    ensures
        text@ == decimal(n as int),
{
    let mut text = String::new();
    if n < 0 {
        text.push('-');
        let wide: i64 = n as i64;
        push_decimal(&mut text, (0 - wide) as u32);
    } else {
        push_decimal(&mut text, n as u32);
    }
    text
}

} // verus!
