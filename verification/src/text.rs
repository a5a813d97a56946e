//! Text building blocks: decimal rendering of numbers and JSON string
//! escaping, used for delay strings and response bodies.

use vstd::prelude::*;
use vstd::string::StrSliceExecFns;
use vstd::string::StringExecFns;

verus! {

/// Relies on String::push: appends exactly one character at the end.
#[verifier::external_body]
pub(crate) fn string_push(s: &mut String, c: char)
    ensures
        final(s)@ == old(s)@ + seq![c],
{
    s.push(c);
}

/// The decimal digit character for a value below ten.
pub open spec fn spec_digit_char(d: nat) -> char {
    if d == 0 {
        '0'
    } else if d == 1 {
        '1'
    } else if d == 2 {
        '2'
    } else if d == 3 {
        '3'
    } else if d == 4 {
        '4'
    } else if d == 5 {
        '5'
    } else if d == 6 {
        '6'
    } else if d == 7 {
        '7'
    } else if d == 8 {
        '8'
    } else {
        '9'
    }
}

fn digit_char(d: u8) -> (c: char)
    requires
        d < 10,
    ensures
        c == spec_digit_char(d as nat),
{
    match d {
        0 => '0',
        1 => '1',
        2 => '2',
        3 => '3',
        4 => '4',
        5 => '5',
        6 => '6',
        7 => '7',
        8 => '8',
        _ => '9',
    }
}

/// The usual decimal rendering of a number: no leading zeros, and a single
/// `'0'` for zero itself.
pub open spec fn spec_dec_digits(n: nat) -> Seq<char>
    decreases n,
{
    if n < 10 {
        seq![spec_digit_char(n)]
    } else {
        spec_dec_digits(n / 10).push(spec_digit_char(n % 10))
    }
}

/// Renders a number in decimal, exactly as the standard formatter would.
pub fn u64_to_dec(n: u64) -> (r: String)
    ensures
        r@ == spec_dec_digits(n as nat),
    decreases n,
{
    if n < 10 {
        let mut s = String::new();
        string_push(&mut s, digit_char(n as u8));
        assert(s@ =~= spec_dec_digits(n as nat));
        s
    } else {
        let mut s = u64_to_dec(n / 10);
        string_push(&mut s, digit_char((n % 10) as u8));
        assert(s@ =~= spec_dec_digits(n as nat));
        s
    }
}

/// The lower-case hexadecimal digit character for a value below sixteen.
pub open spec fn spec_hex_char(d: nat) -> char {
    if d < 10 {
        spec_digit_char(d)
    } else if d == 10 {
        'a'
    } else if d == 11 {
        'b'
    } else if d == 12 {
        'c'
    } else if d == 13 {
        'd'
    } else if d == 14 {
        'e'
    } else {
        'f'
    }
}

fn hex_char(d: u8) -> (c: char)
    requires
        d < 16,
    ensures
        c == spec_hex_char(d as nat),
{
    if d < 10 {
        digit_char(d)
    } else {
        match d {
            10 => 'a',
            11 => 'b',
            12 => 'c',
            13 => 'd',
            14 => 'e',
            _ => 'f',
        }
    }
}

/// How one character appears inside a JSON string literal: quotes and
/// backslashes get a backslash escape, control characters get their short
/// escape where one exists and a `\u00..` escape otherwise, and every other
/// character stands for itself.
pub open spec fn spec_escape_char(c: char) -> Seq<char> {
    if c == '"' {
        seq!['\\', '"']
    } else if c == '\\' {
        seq!['\\', '\\']
    } else if c == '\u{08}' {
        seq!['\\', 'b']
    } else if c == '\t' {
        seq!['\\', 't']
    } else if c == '\n' {
        seq!['\\', 'n']
    } else if c == '\u{0c}' {
        seq!['\\', 'f']
    } else if c == '\r' {
        seq!['\\', 'r']
    } else if (c as u32) < 0x20 {
        seq!['\\', 'u', '0', '0', spec_hex_char(((c as u32) / 16) as nat), spec_hex_char(
            ((c as u32) % 16) as nat,
        )]
    } else {
        seq![c]
    }
}

/// A whole string as it appears inside a JSON string literal.
pub open spec fn spec_json_escape(s: Seq<char>) -> Seq<char>
    decreases s.len(),
{
    if s.len() == 0 {
        Seq::empty()
    } else {
        spec_escape_char(s[0]) + spec_json_escape(s.drop_first())
    }
}

fn push_escaped(r: &mut String, c: char)
    ensures
        final(r)@ == old(r)@ + spec_escape_char(c),
{
    if c == '"' {
        string_push(r, '\\');
        string_push(r, '"');
    } else if c == '\\' {
        string_push(r, '\\');
        string_push(r, '\\');
    } else if c == '\u{08}' {
        string_push(r, '\\');
        string_push(r, 'b');
    } else if c == '\t' {
        string_push(r, '\\');
        string_push(r, 't');
    } else if c == '\n' {
        string_push(r, '\\');
        string_push(r, 'n');
    } else if c == '\u{0c}' {
        string_push(r, '\\');
        string_push(r, 'f');
    } else if c == '\r' {
        string_push(r, '\\');
        string_push(r, 'r');
    } else if (c as u32) < 0x20 {
        let v = c as u32;
        string_push(r, '\\');
        string_push(r, 'u');
        string_push(r, '0');
        string_push(r, '0');
        string_push(r, hex_char((v / 16) as u8));
        string_push(r, hex_char((v % 16) as u8));
        assert(final(r)@ =~= old(r)@ + spec_escape_char(c));
    } else {
        string_push(r, c);
    }
    assert(final(r)@ =~= old(r)@ + spec_escape_char(c));
}

/// Escapes a string for inclusion inside a JSON string literal.
pub fn json_escape(s: &str) -> (r: String)
    ensures
        r@ == spec_json_escape(s@),
{
    let n = s.unicode_len();
    let mut r = String::new();
    assert(s@.skip(0) =~= s@);
    for i in 0..n
        invariant
            n == s@.len(),
            spec_json_escape(s@) =~= r@ + spec_json_escape(s@.skip(i as int)),
    {
        let c = s.get_char(i);
        push_escaped(&mut r, c);
        proof {
            assert(s@.skip(i as int).drop_first() =~= s@.skip(i + 1));
        }
    }
    r
}

/// The body of every JSON error or acknowledgement message: an object with
/// a single `message` field.
pub open spec fn spec_message_body(m: Seq<char>) -> Seq<char> {
    seq!['{', '"', 'm', 'e', 's', 's', 'a', 'g', 'e', '"', ':', '"'] + spec_json_escape(m)
        + seq!['"', '}']
}

/// Builds the JSON object `{"message": ...}` around a text.
pub fn message_body(msg: &str) -> (r: String)
    ensures
        r@ == spec_message_body(msg@),
{
    let mut r = String::from_str("{\"message\":\"");
    proof {
        reveal_strlit("{\"message\":\"");
    }
    let escaped = json_escape(msg);
    r.append(escaped.as_str());
    r.append("\"}");
    proof {
        reveal_strlit("\"}");
    }
    assert(r@ =~= spec_message_body(msg@));
    r
}

} // verus!
