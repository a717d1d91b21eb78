//! JSON string literals, as the run report writes them.

use vstd::prelude::*;
use crate::text::{digit, digit_char, push_char};

verus! {

broadcast use vstd::string::group_string_axioms;

/// The lower-case hexadecimal digit for a value below sixteen.
pub open spec fn hex_char(v: nat) -> char {
    if v < 10 {
        digit_char(v)
    } else {
        (v + 87) as char
    }
}

/// How one character stands inside a JSON string literal: a quote, a
/// backslash, `\n`, `\r` and `\t` get a backslash escape, the other
/// control characters below U+0020 a `\u00XX` escape, and every other
/// character stands for itself.
pub open spec fn escaped_char(c: char) -> Seq<char> {
    if c == '"' {
        seq!['\\', '"']
    } else if c == '\\' {
        seq!['\\', '\\']
    } else if c == '\n' {
        seq!['\\', 'n']
    } else if c == '\r' {
        seq!['\\', 'r']
    } else if c == '\t' {
        seq!['\\', 't']
    } else if (c as u32) < 0x20 {
        seq!['\\', 'u', '0', '0', hex_char((c as nat) / 16), hex_char((c as nat) % 16)]
    } else {
        seq![c]
    }
}

/// The characters of `s`, each escaped, in order.
pub open spec fn escaped(s: Seq<char>) -> Seq<char>
    decreases s.len(),
{
    if s.len() == 0 {
        Seq::empty()
    } else {
        escaped(s.drop_last()) + escaped_char(s.last())
    }
}

/// The JSON string literal of `s`: its escaped characters between quotes.
pub open spec fn json_string(s: Seq<char>) -> Seq<char> {
    seq!['"'] + escaped(s) + seq!['"']
}

/// The hexadecimal digit of a value below sixteen.
fn hex(v: u32) -> (c: char)
    requires
        v < 16,
    ensures
        c == hex_char(v as nat),
{
    if v < 10 {
        digit(v as u8)
    } else {
        ((v as u8) + 87) as char
    }
}

/// Appends how `c` stands inside a JSON string literal.
pub fn push_escaped(out: &mut String, c: char)
    ensures
        final(out)@ == old(out)@ + escaped_char(c),
{
    if c == '"' {
        push_char(out, '\\');
        push_char(out, '"');
    } else if c == '\\' {
        push_char(out, '\\');
        push_char(out, '\\');
    } else if c == '\n' {
        push_char(out, '\\');
        push_char(out, 'n');
    } else if c == '\r' {
        push_char(out, '\\');
        push_char(out, 'r');
    } else if c == '\t' {
        push_char(out, '\\');
        push_char(out, 't');
    } else if (c as u32) < 0x20 {
        let v = c as u32;
        push_char(out, '\\');
        push_char(out, 'u');
        push_char(out, '0');
        push_char(out, '0');
        push_char(out, hex(v / 16));
        push_char(out, hex(v % 16));
    } else {
        push_char(out, c);
    }
    assert(final(out)@ =~= old(out)@ + escaped_char(c));
}

/// The JSON string literal of `s`.
pub fn json_str(s: &str) -> (r: String)
    ensures
        r@ == json_string(s@),
{
    let mut out = String::new();
    push_char(&mut out, '"');
    for c in it: s.chars()
        invariant
            it.seq() == s@,
            out@ == seq!['"'] + escaped(s@.take(it.index() as int)),
    {
        let ghost before = s@.take(it.index() as int);
        push_escaped(&mut out, c);
        assert(s@.take(it.index() + 1).drop_last() =~= before);
    }
    assert(s@.take(s@.len() as int) =~= s@);
    push_char(&mut out, '"');
    out
}

/// A character that stands for itself inside a JSON string literal.
pub open spec fn plain_char(c: char) -> bool {
    c != '"' && c != '\\' && (c as u32) >= 0x20
}

proof fn lemma_escaped_char_has_no_control_chars(c: char)
    ensures
        forall|i: int| 0 <= i < escaped_char(c).len() ==> (#[trigger] escaped_char(c)[i] as u32) >= 0x20,
{
    if c != '"' && c != '\\' && c != '\n' && c != '\r' && c != '\t' && (c as u32) < 0x20 {
        let hi = (c as nat) / 16;
        let lo = (c as nat) % 16;
        assert(hi < 16 && lo < 16);
        assert((hex_char(hi) as u32) >= 0x30);
        assert((hex_char(lo) as u32) >= 0x30);
    }
}

proof fn lemma_escaped_has_no_control_chars(s: Seq<char>)
    ensures
        forall|i: int| 0 <= i < escaped(s).len() ==> (#[trigger] escaped(s)[i] as u32) >= 0x20,
    decreases s.len(),
{
    if s.len() > 0 {
        lemma_escaped_has_no_control_chars(s.drop_last());
        lemma_escaped_char_has_no_control_chars(s.last());
        let a = escaped(s.drop_last());
        let b = escaped_char(s.last());
        assert forall|i: int| 0 <= i < escaped(s).len() implies (#[trigger] escaped(s)[i] as u32)
            >= 0x20 by {
            if i < a.len() {
                assert(escaped(s)[i] == a[i]);
            } else {
                assert(escaped(s)[i] == b[i - a.len()]);
            }
        }
    }
}

/// A JSON string literal holds no control character below U+0020, so a
/// report line never breaks, whatever text it quotes.
pub proof fn lemma_json_string_has_no_control_chars(s: Seq<char>)
    ensures
        forall|i: int|
            0 <= i < json_string(s).len() ==> (#[trigger] json_string(s)[i] as u32) >= 0x20,
{
    lemma_escaped_has_no_control_chars(s);
    let e = escaped(s);
    assert forall|i: int| 0 <= i < json_string(s).len() implies (#[trigger] json_string(
        s,
    )[i] as u32) >= 0x20 by {
        if 1 <= i <= e.len() {
            assert(json_string(s)[i] == e[i - 1]);
        }
    }
}

/// Text of characters that stand for themselves is quoted unchanged.
pub proof fn lemma_plain_text_quoted_unchanged(s: Seq<char>)
    requires
        forall|i: int| 0 <= i < s.len() ==> plain_char(#[trigger] s[i]),
    ensures
        json_string(s) == seq!['"'] + s + seq!['"'],
    decreases s.len(),
{
    lemma_plain_escaped_unchanged(s);
}

proof fn lemma_plain_escaped_unchanged(s: Seq<char>)
    requires
        forall|i: int| 0 <= i < s.len() ==> plain_char(#[trigger] s[i]),
    ensures
        escaped(s) == s,
    decreases s.len(),
{
    if s.len() > 0 {
        let t = s.drop_last();
        assert forall|i: int| 0 <= i < t.len() implies plain_char(#[trigger] t[i]) by {
            assert(t[i] == s[i]);
        }
        lemma_plain_escaped_unchanged(t);
        assert(plain_char(s[s.len() - 1]));
        assert(escaped(s) =~= s);
    }
}

/// The value of a hexadecimal digit, in either case.
pub open spec fn hex_value(c: char) -> Option<nat> {
    let n = c as nat;
    if 48 <= n <= 57 {
        Some((n - 48) as nat)
    } else if 97 <= n <= 102 {
        Some((n - 87) as nat)
    } else if 65 <= n <= 70 {
        Some((n - 55) as nat)
    } else {
        None
    }
}

/// The character that a two-character escape `\e` stands for.
pub open spec fn short_escape(e: char) -> Option<char> {
    if e == '"' {
        Some('"')
    } else if e == '\\' {
        Some('\\')
    } else if e == '/' {
        Some('/')
    } else if e == 'b' {
        Some('\x08')
    } else if e == 'f' {
        Some('\x0c')
    } else if e == 'n' {
        Some('\n')
    } else if e == 'r' {
        Some('\r')
    } else if e == 't' {
        Some('\t')
    } else {
        None
    }
}

/// The character that the four hexadecimal digits of a `\uXXXX` escape
/// stand for; escapes into the surrogate range are not read.
pub open spec fn unicode_escape(d: Seq<char>) -> Option<char> {
    match (hex_value(d[0]), hex_value(d[1]), hex_value(d[2]), hex_value(d[3])) {
        (Some(a), Some(b), Some(c), Some(e)) => {
            let v = a * 4096 + b * 256 + c * 16 + e;
            if v < 0xD800 || 0xE000 <= v {
                Some(v as char)
            } else {
                None
            }
        },
        _ => None,
    }
}

/// `rest`, if any, with `c` in front.
pub open spec fn prepend(c: char, rest: Option<Seq<char>>) -> Option<Seq<char>> {
    match rest {
        Some(r) => Some(seq![c] + r),
        None => None,
    }
}

/// The characters that the inside of a JSON string literal stands for,
/// read from the front; `None` where it is not valid JSON (a bare quote or
/// control character, or an unknown escape).
pub open spec fn json_unescape(t: Seq<char>) -> Option<Seq<char>>
    decreases t.len(),
{
    if t.len() == 0 {
        Some(Seq::empty())
    } else if t[0] == '\\' {
        if t.len() >= 2 && short_escape(t[1]) is Some {
            prepend(short_escape(t[1])->Some_0, json_unescape(t.skip(2)))
        } else if t.len() >= 6 && t[1] == 'u' && unicode_escape(t.subrange(2, 6)) is Some {
            prepend(unicode_escape(t.subrange(2, 6))->Some_0, json_unescape(t.skip(6)))
        } else {
            None
        }
    } else if t[0] == '"' || (t[0] as u32) < 0x20 {
        None
    } else {
        prepend(t[0], json_unescape(t.skip(1)))
    }
}

/// The text that a JSON string literal stands for, if `t` is one.
pub open spec fn json_string_value(t: Seq<char>) -> Option<Seq<char>> {
    if t.len() >= 2 && t[0] == '"' && t[t.len() - 1] == '"' {
        json_unescape(t.subrange(1, t.len() - 1))
    } else {
        None
    }
}

proof fn lemma_escaped_first(s: Seq<char>)
    requires
        s.len() > 0,
    ensures
        escaped(s) == escaped_char(s[0]) + escaped(s.drop_first()),
    decreases s.len(),
{
    if s.len() == 1 {
        assert(s.drop_first() =~= Seq::<char>::empty());
        assert(s.drop_last().len() == 0);
        assert(escaped(s.drop_last()) == Seq::<char>::empty());
        assert(escaped(s.drop_first()) == Seq::<char>::empty());
        assert(s.last() == s[0]);
        assert(escaped(s) =~= escaped_char(s[0]) + escaped(s.drop_first()));
    } else {
        let t = s.drop_last();
        lemma_escaped_first(t);
        assert(t.drop_first() =~= s.drop_first().drop_last());
        assert(s.drop_first().last() == s.last());
        assert(escaped(s) =~= escaped_char(s[0]) + escaped(s.drop_first()));
    }
}

proof fn lemma_hex_value_of_hex_char(v: nat)
    requires
        v < 16,
    ensures
        hex_value(hex_char(v)) == Some(v),
{
}

proof fn lemma_unescape_escaped_char(c: char, rest: Seq<char>)
    ensures
        json_unescape(escaped_char(c) + rest) == prepend(c, json_unescape(rest)),
{
    let t = escaped_char(c) + rest;
    let e = escaped_char(c);
    if c == '"' || c == '\\' || c == '\n' || c == '\r' || c == '\t' {
        assert(t[0] == '\\' && t[1] == e[1]);
        assert(t.skip(2) =~= rest);
    } else if (c as u32) < 0x20 {
        let hi = (c as nat) / 16;
        let lo = (c as nat) % 16;
        lemma_hex_value_of_hex_char(hi);
        lemma_hex_value_of_hex_char(lo);
        lemma_hex_value_of_hex_char(0);
        assert(t[0] == '\\' && t[1] == 'u');
        assert(short_escape(t[1]) is None);
        let d = t.subrange(2, 6);
        assert(d =~= seq!['0', '0', hex_char(hi), hex_char(lo)]);
        assert(hi * 16 + lo == c as nat);
        assert(unicode_escape(d) == Some(c));
        assert(t.skip(6) =~= rest);
    } else {
        assert(t[0] == c);
        assert(t.skip(1) =~= rest);
    }
}

proof fn lemma_unescape_escaped(s: Seq<char>)
    ensures
        json_unescape(escaped(s)) == Some(s),
    decreases s.len(),
{
    if s.len() > 0 {
        lemma_escaped_first(s);
        lemma_unescape_escaped(s.drop_first());
        lemma_unescape_escaped_char(s[0], escaped(s.drop_first()));
        assert(seq![s[0]] + s.drop_first() =~= s);
    }
}

/// Reading back the JSON string literal of `s` gives `s`: the literal is
/// valid JSON and stands for exactly the text it quotes.
pub proof fn lemma_json_string_reads_back(s: Seq<char>)
    ensures
        json_string_value(json_string(s)) == Some(s),
{
    lemma_unescape_escaped(s);
    let j = json_string(s);
    assert(j.subrange(1, j.len() - 1) =~= escaped(s));
}

} // verus!
