//! Escaping of caller-supplied text for the inside of a single-quoted script
//! literal, so that no value can end the literal it is placed in.

use vstd::prelude::*;

verus! {

/// Characters that are not written as they are inside a single-quoted
/// literal: the backslash, the quote itself, the four line terminators,
/// and the NUL character, at which a host may cut a script short.
pub open spec fn needs_escape(c: char) -> bool {
    c == '\\' || c == '\'' || c == '\n' || c == '\r' || c == '\u{2028}' || c == '\u{2029}' || c
        == '\0'
}

/// The escaped form of one character.
pub open spec fn escape_char(c: char) -> Seq<char> {
    if c == '\\' {
        seq!['\\', '\\']
    } else if c == '\'' {
        seq!['\\', '\'']
    } else if c == '\n' {
        seq!['\\', 'n']
    } else if c == '\r' {
        seq!['\\', 'r']
    } else if c == '\u{2028}' {
        seq!['\\', 'u', '2', '0', '2', '8']
    } else if c == '\u{2029}' {
        seq!['\\', 'u', '2', '0', '2', '9']
    } else if c == '\0' {
        seq!['\\', 'x', '0', '0']
    } else {
        seq![c]
    }
}

/// The escaped form of a text: the escaped forms of its characters, in order.
pub open spec fn escape_text(text: Seq<char>) -> Seq<char>
    decreases text.len(),
{
    if text.len() == 0 {
        Seq::empty()
    } else {
        escape_char(text[0]) + escape_text(text.drop_first())
    }
}

/// The character that a backslash followed by `c` denotes, for the
/// two-character escapes that [`escape_char`] writes.
pub open spec fn short_escape(c: char) -> Option<char> {
    if c == '\\' {
        Some('\\')
    } else if c == '\'' {
        Some('\'')
    } else if c == 'n' {
        Some('\n')
    } else if c == 'r' {
        Some('\r')
    } else {
        None
    }
}

/// The NUL character, if `body` starts with the four-character escape for
/// it.
pub open spec fn hex_escape(body: Seq<char>) -> Option<char> {
    if body.len() >= 4 && body[0] == '\\' && body[1] == 'x' && body[2] == '0' && body[3] == '0' {
        Some('\0')
    } else {
        None
    }
}

/// The line separator that `body` names with a six-character escape at its
/// start, if it starts with one.
pub open spec fn long_escape(body: Seq<char>) -> Option<char> {
    if body.len() >= 6 && body[0] == '\\' && body[1] == 'u' && body[2] == '2' && body[3] == '0'
        && body[4] == '2' {
        if body[5] == '8' {
            Some('\u{2028}')
        } else if body[5] == '9' {
            Some('\u{2029}')
        } else {
            None
        }
    } else {
        None
    }
}

/// The text that the body of a single-quoted literal stands for, read from
/// the left. `None` where a character that [`needs_escape`] stands
/// unescaped (the literal would end or break there) or where a backslash
/// starts none of the escapes that [`escape_char`] writes.
pub open spec fn literal_value(body: Seq<char>) -> Option<Seq<char>>
    decreases body.len(),
{
    if body.len() == 0 {
        Some(Seq::empty())
    } else if body[0] == '\\' {
        if body.len() >= 2 && short_escape(body[1]) is Some {
            match literal_value(body.skip(2)) {
                Some(rest) => Some(seq![short_escape(body[1])->0] + rest),
                None => None,
            }
        } else if long_escape(body) is Some {
            match literal_value(body.skip(6)) {
                Some(rest) => Some(seq![long_escape(body)->0] + rest),
                None => None,
            }
        } else if hex_escape(body) is Some {
            match literal_value(body.skip(4)) {
                Some(rest) => Some(seq![hex_escape(body)->0] + rest),
                None => None,
            }
        } else {
            None
        }
    } else if needs_escape(body[0]) {
        None
    } else {
        match literal_value(body.skip(1)) {
            Some(rest) => Some(seq![body[0]] + rest),
            None => None,
        }
    }
}

/// Escaping distributes over appending one character.
pub proof fn lemma_escape_push(text: Seq<char>, c: char)
    ensures
        escape_text(text.push(c)) == escape_text(text) + escape_char(c),
    decreases text.len(),
{
    if text.len() == 0 {
        assert(text.push(c).drop_first() =~= Seq::<char>::empty());
        assert(escape_text(text.push(c)) =~= escape_char(c) + escape_text(Seq::empty()));
        assert(escape_text(text.push(c)) =~= escape_text(text) + escape_char(c));
    } else {
        lemma_escape_push(text.drop_first(), c);
        assert(text.push(c).drop_first() =~= text.drop_first().push(c));
        assert(escape_text(text.push(c)) =~= escape_text(text) + escape_char(c));
    }
}

/// Reading back one escaped character followed by `rest` gives that
/// character followed by what `rest` stands for.
proof fn lemma_read_escaped_char(c: char, rest: Seq<char>)
    ensures
        literal_value(escape_char(c) + rest) == match literal_value(rest) {
            Some(value) => Some(seq![c] + value),
            None => None,
        },
{
    let body = escape_char(c) + rest;
    if c == '\u{2028}' || c == '\u{2029}' {
        assert(body.skip(6) =~= rest);
        assert(short_escape(body[1]) is None);
    } else if c == '\0' {
        assert(body.skip(4) =~= rest);
        assert(short_escape(body[1]) is None);
        assert(long_escape(body) is None);
    } else if needs_escape(c) {
        assert(body.skip(2) =~= rest);
    } else {
        assert(body.skip(1) =~= rest);
    }
}

/// An escaped text, placed between single quotes, stands for exactly the
/// text that was escaped: no value ends its literal early, and none is
/// altered by the engine that reads it.
pub proof fn lemma_escape_round_trip(text: Seq<char>)
    ensures
        literal_value(escape_text(text)) == Some(text),
    decreases text.len(),
{
    if text.len() > 0 {
        lemma_escape_round_trip(text.drop_first());
        lemma_read_escaped_char(text[0], escape_text(text.drop_first()));
        assert(seq![text[0]] + text.drop_first() =~= text);
    }
}

/// Different texts have different escaped forms.
pub proof fn lemma_escape_injective(a: Seq<char>, b: Seq<char>)
    requires
        escape_text(a) == escape_text(b),
    ensures
        a == b,
{
    lemma_escape_round_trip(a);
    lemma_escape_round_trip(b);
}

/// A text in which nothing needs escaping is its own escaped form.
pub proof fn lemma_escape_plain(text: Seq<char>)
    requires
        forall|i: int| 0 <= i < text.len() ==> !needs_escape(#[trigger] text[i]),
    ensures
        escape_text(text) == text,
    decreases text.len(),
{
    if text.len() > 0 {
        lemma_escape_plain(text.drop_first());
        assert(seq![text[0]] + text.drop_first() =~= text);
    }
}

/// Escapes `text` for the inside of a single-quoted script literal.
pub fn escape_js(text: &str) -> (escaped: String)
    ensures
        escaped@ == escape_text(text@),
{
    let mut escaped = String::new();
    for c in it: text.chars()
        invariant
            it.seq() == text@,
            escaped@ == escape_text(text@.take(it.index())),
    {
        proof {
            lemma_escape_push(text@.take(it.index()), c);
            assert(text@.take(it.index() + 1) =~= text@.take(it.index()).push(c));
        }
        let ghost before = escaped@;
        if c == '\\' {
            escaped.push('\\');
            escaped.push('\\');
        } else if c == '\'' {
            escaped.push('\\');
            escaped.push('\'');
        } else if c == '\n' {
            escaped.push('\\');
            escaped.push('n');
        } else if c == '\r' {
            escaped.push('\\');
            escaped.push('r');
        } else if c == '\u{2028}' || c == '\u{2029}' {
            escaped.push('\\');
            escaped.push('u');
            escaped.push('2');
            escaped.push('0');
            escaped.push('2');
            escaped.push(if c == '\u{2028}' { '8' } else { '9' });
        } else if c == '\0' {
            escaped.push('\\');
            escaped.push('x');
            escaped.push('0');
            escaped.push('0');
        } else {
            escaped.push(c);
        }
        assert(escaped@ =~= before + escape_char(c));
    }
    assert(text@.take(text@.len() as int) =~= text@);
    escaped
}

} // verus!
