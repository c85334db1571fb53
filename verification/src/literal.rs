//! String literals of Rust source text: writing a text as one, and reading one back.

use vstd::prelude::*;

verus! {

/// How one character is written inside a string literal. A backslash and a double quote
/// get a backslash before them, a carriage return is written `\r`, and every other
/// character stands for itself.
pub open spec fn escaped_char(c: char) -> Seq<char> {
    if c == '\\' || c == '"' {
        seq!['\\', c]
    } else if c == '\r' {
        seq!['\\', 'r']
    } else {
        seq![c]
    }
}

/// The body of the string literal that stands for `s`.
pub open spec fn escaped(s: Seq<char>) -> Seq<char>
    decreases s.len(),
{
    if s.len() == 0 {
        Seq::empty()
    } else {
        escaped_char(s.first()) + escaped(s.drop_first())
    }
}

/// The string literal that stands for `s`: its body between two double quotes.
pub open spec fn string_literal(s: Seq<char>) -> Seq<char> {
    seq!['"'] + escaped(s) + seq!['"']
}

/// The text that the body of a string literal stands for, reading the three escapes
/// above. `None` where a double quote or a carriage return stands bare in the body, or a
/// backslash is followed by anything but a backslash, a double quote or `r`.
pub open spec fn unescaped(body: Seq<char>) -> Option<Seq<char>>
    decreases body.len(),
{
    if body.len() == 0 {
        Some(Seq::empty())
    } else if body[0] == '\\' {
        if body.len() >= 2 && (body[1] == '\\' || body[1] == '"' || body[1] == 'r') {
            let c = if body[1] == 'r' {
                '\r'
            } else {
                body[1]
            };
            match unescaped(body.skip(2)) {
                Some(rest) => Some(seq![c] + rest),
                None => None,
            }
        } else {
            None
        }
    } else if body[0] == '"' || body[0] == '\r' {
        None
    } else {
        match unescaped(body.skip(1)) {
            Some(rest) => Some(seq![body[0]] + rest),
            None => None,
        }
    }
}

/// The text that a string literal stands for; `None` where `text` is no string literal.
pub open spec fn literal_value(text: Seq<char>) -> Option<Seq<char>> {
    if text.len() >= 2 && text.first() == '"' && text.last() == '"' {
        unescaped(text.subrange(1, text.len() - 1))
    } else {
        None
    }
}

/// A body is written piece by piece.
pub proof fn lemma_escaped_concat(a: Seq<char>, b: Seq<char>)
    ensures
        escaped(a + b) == escaped(a) + escaped(b),
    decreases a.len(),
{
    if a.len() == 0 {
        assert(a + b == b);
    } else {
        assert((a + b).drop_first() == a.drop_first() + b);
        lemma_escaped_concat(a.drop_first(), b);
    }
}

/// Writing one more character puts its escape at the end of the body.
pub proof fn lemma_escaped_push(s: Seq<char>, c: char)
    ensures
        escaped(s.push(c)) == escaped(s) + escaped_char(c),
{
    assert(s.push(c) == s + seq![c]);
    lemma_escaped_concat(s, seq![c]);
    assert(escaped(seq![c]) == escaped_char(c)) by {
        assert(seq![c].drop_first() == Seq::<char>::empty());
        assert(escaped(seq![c].drop_first()) == Seq::<char>::empty());
        assert(escaped_char(c) + Seq::<char>::empty() == escaped_char(c));
    }
}

/// A text that holds no backslash, double quote or carriage return is its own body.
pub proof fn lemma_escaped_plain(s: Seq<char>)
    requires
        forall|i: int| 0 <= i < s.len() ==> escaped_char(#[trigger] s[i]) == seq![s[i]],
    ensures
        escaped(s) == s,
    decreases s.len(),
{
    if s.len() > 0 {
        lemma_escaped_plain(s.drop_first());
        assert(seq![s.first()] + s.drop_first() == s);
    }
}

/// Reading a written body gives the text back: nothing is lost, and no character of the
/// text ends the literal early.
pub proof fn lemma_unescaped_escaped(s: Seq<char>)
    ensures
        unescaped(escaped(s)) == Some(s),
    decreases s.len(),
{
    if s.len() > 0 {
        let c = s.first();
        let rest = s.drop_first();
        let body = escaped(s);
        lemma_unescaped_escaped(rest);
        if c == '\\' || c == '"' || c == '\r' {
            assert(body.skip(2) == escaped(rest));
        } else {
            assert(body.skip(1) == escaped(rest));
        }
        assert(seq![c] + rest == s);
    }
}

/// The literal written for a text stands for that text.
pub proof fn lemma_literal_value(s: Seq<char>)
    ensures
        literal_value(string_literal(s)) == Some(s),
{
    let text = string_literal(s);
    assert(text.subrange(1, text.len() - 1) == escaped(s));
    lemma_unescaped_escaped(s);
}

/// The body of the string literal that stands for `s`.
pub fn escape(s: &str) -> (body: String)
    ensures
        body@ == escaped(s@),
{
    let mut body = String::new();
    for c in it: s.chars()
        invariant
            it.seq() == s@,
            body@ == escaped(s@.take(it.index())),
    {
        proof {
            let k = it.index();
            assert(s@.take(k + 1) == s@.take(k).push(c));
            lemma_escaped_push(s@.take(k), c);
        }
        if c == '\\' || c == '"' {
            body.push('\\');
            body.push(c);
        } else if c == '\r' {
            body.push('\\');
            body.push('r');
        } else {
            body.push(c);
        }
    }
    proof {
        assert(s@.take(s@.len() as int) == s@);
    }
    body
}

/// The string literal that stands for `s`.
pub fn quote(s: &str) -> (text: String)
    ensures
        text@ == string_literal(s@),
{
    let mut text = String::new();
    text.push('"');
    let body = escape(s);
    text.append(body.as_str());
    text.push('"');
    text
}

} // verus!
