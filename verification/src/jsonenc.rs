//! The JSON wire encoding of outbound payloads.
//!
//! The publisher serializes a disbursement command before handing it to
//! the event stream; the encoding is spelled out here as spec functions
//! over character sequences, and the writers are proved to produce exactly
//! that. Strings are escaped as JSON demands: quote and backslash get a
//! backslash, control characters become `\u00XX`, everything else stands
//! as itself.

use vstd::prelude::*;
use vstd::string::*;
use crate::date::Date;
use crate::uid::{append_hex_digit, hex_char};

verus! {

/// The escape of one character inside a JSON string literal.
pub open spec fn esc_char(c: char) -> Seq<char> {
    if c == '"' {
        seq!['\\', '"']
    } else if c == '\\' {
        seq!['\\', '\\']
    } else if (c as int) < 32 {
        seq!['\\', 'u', '0', '0', hex_char(c as int / 16), hex_char(c as int % 16)]
    } else {
        seq![c]
    }
}

/// The escape of a whole string body.
pub open spec fn esc(s: Seq<char>) -> Seq<char>
    decreases s.len(),
{
    if s.len() == 0 {
        Seq::empty()
    } else {
        esc(s.drop_last()) + esc_char(s.last())
    }
}

/// A JSON string literal: the escaped body in double quotes.
pub open spec fn json_str(s: Seq<char>) -> Seq<char> {
    seq!['"'] + esc(s) + seq!['"']
}

/// A non-negative number in decimal, no leading zeros. Digit characters
/// below ten coincide with the hex digits, so `hex_char` renders them.
pub open spec fn dec_str(n: int) -> Seq<char>
    decreases n,
{
    if n < 10 {
        seq![hex_char(n)]
    } else {
        dec_str(n / 10) + seq![hex_char(n % 10)]
    }
}

/// `n` in decimal, left-padded with zeros to exactly `w` digits.
pub open spec fn dec_fixed(n: int, w: nat) -> Seq<char>
    decreases w,
{
    if w == 0 {
        Seq::empty()
    } else {
        dec_fixed(n / 10, (w - 1) as nat) + seq![hex_char(n % 10)]
    }
}

/// A JSON boolean.
pub open spec fn json_bool(b: bool) -> Seq<char> {
    if b {
        "true"@
    } else {
        "false"@
    }
}

/// An optional string field: `null` or a JSON string.
pub open spec fn json_opt_str(s: Option<Seq<char>>) -> Seq<char> {
    match s {
        Option::None => "null"@,
        Option::Some(v) => json_str(v),
    }
}

/// The character sequences held by an optional string.
pub open spec fn opt_view(s: Option<String>) -> Option<Seq<char>> {
    match s {
        Option::None => Option::None,
        Option::Some(v) => Option::Some(v@),
    }
}

/// A date as JSON: `"YYYY-MM-DD"`.
pub open spec fn json_date(d: Date) -> Seq<char> {
    seq!['"'] + dec_fixed(d.year as int, 4) + seq!['-'] + dec_fixed(d.month as int, 2) + seq!['-']
        + dec_fixed(d.day as int, 2) + seq!['"']
}

/// The members of a JSON array, separated by commas.
pub open spec fn join_comma(items: Seq<Seq<char>>) -> Seq<char>
    decreases items.len(),
{
    if items.len() == 0 {
        Seq::empty()
    } else if items.len() == 1 {
        items[0]
    } else {
        join_comma(items.drop_last()) + seq![','] + items.last()
    }
}

/// A JSON array of already-encoded members.
pub open spec fn json_arr(items: Seq<Seq<char>>) -> Seq<char> {
    seq!['['] + join_comma(items) + seq![']']
}

/// Appending one member to a comma-joined list adds a comma exactly when
/// the list was not empty.
pub proof fn lemma_join_comma_push(items: Seq<Seq<char>>, x: Seq<char>)
    ensures
        items.len() == 0 ==> join_comma(items.push(x)) == x,
        items.len() > 0 ==> join_comma(items.push(x)) == join_comma(items) + seq![','] + x,
{
    assert(items.push(x).drop_last() =~= items);
    assert(items.push(x).last() == x);
}

/// Relies on `String::push`: appends the given character to the end of
/// the string.
#[verifier::external_body]
pub(crate) fn push_char(out: &mut String, c: char)
    ensures
        final(out)@ == old(out)@ + seq![c],
{
    out.push(c);
}

/// Appends the escape of one character.
fn append_esc_char(out: &mut String, c: char)
    ensures
        final(out)@ == old(out)@ + esc_char(c),
{
    let u = c as u32;
    if c == '"' {
        proof {
            reveal_strlit("\\\"");
        }
        out.append("\\\"");
        assert(out@ =~= old(out)@ + esc_char(c));
    } else if c == '\\' {
        proof {
            reveal_strlit("\\\\");
        }
        out.append("\\\\");
        assert(out@ =~= old(out)@ + esc_char(c));
    } else if u < 32 {
        proof {
            reveal_strlit("\\u00");
        }
        out.append("\\u00");
        append_hex_digit(out, (u / 16) as u8);
        append_hex_digit(out, (u % 16) as u8);
        assert(out@ =~= old(out)@ + esc_char(c));
    } else {
        push_char(out, c);
        assert(out@ =~= old(out)@ + esc_char(c));
    }
}

/// Appends the escaped body of `s`.
fn append_escaped(out: &mut String, s: &str)
    ensures
        final(out)@ == old(out)@ + esc(s@),
{
    let n = s.unicode_len();
    let mut i: usize = 0;
    while i < n
        invariant
            i <= n,
            n == s@.len(),
            out@ == old(out)@ + esc(s@.subrange(0, i as int)),
        decreases n - i,
    {
        let c = s.get_char(i);
        append_esc_char(out, c);
        proof {
            assert(s@.subrange(0, i as int + 1).drop_last() =~= s@.subrange(0, i as int));
            assert(s@.subrange(0, i as int + 1).last() == s@[i as int]);
        }
        i += 1;
    }
    assert(s@.subrange(0, n as int) =~= s@);
}

/// Appends `s` as a JSON string literal.
pub fn append_json_str(out: &mut String, s: &str)
    ensures
        final(out)@ == old(out)@ + json_str(s@),
{
    push_char(out, '"');
    append_escaped(out, s);
    push_char(out, '"');
    assert(out@ =~= old(out)@ + json_str(s@));
}

/// Appends `n` in decimal.
pub fn append_u32(out: &mut String, n: u32)
    ensures
        final(out)@ == old(out)@ + dec_str(n as int),
    decreases n,
{
    if n < 10 {
        append_hex_digit(out, n as u8);
    } else {
        append_u32(out, n / 10);
        append_hex_digit(out, (n % 10) as u8);
    }
    assert(out@ =~= old(out)@ + dec_str(n as int));
}

/// Appends `n` in decimal.
pub fn append_u64(out: &mut String, n: u64)
    ensures
        final(out)@ == old(out)@ + dec_str(n as int),
    decreases n,
{
    if n < 10 {
        append_hex_digit(out, n as u8);
    } else {
        append_u64(out, n / 10);
        append_hex_digit(out, (n % 10) as u8);
    }
    assert(out@ =~= old(out)@ + dec_str(n as int));
}

/// `n` in decimal, as a fresh string.
pub fn u32_to_string(n: u32) -> (r: String)
    ensures
        r@ == dec_str(n as int),
{
    let mut out = String::new();
    append_u32(&mut out, n);
    assert(out@ =~= dec_str(n as int));
    out
}

/// Appends `n` in decimal, zero-padded to `w` digits.
pub fn append_dec_fixed(out: &mut String, n: u32, w: u32)
    ensures
        final(out)@ == old(out)@ + dec_fixed(n as int, w as nat),
    decreases w,
{
    if w == 0 {
        assert(out@ =~= old(out)@ + dec_fixed(n as int, 0));
        return ;
    }
    append_dec_fixed(out, n / 10, w - 1);
    append_hex_digit(out, (n % 10) as u8);
    assert(out@ =~= old(out)@ + dec_fixed(n as int, w as nat));
}

/// Appends a JSON boolean.
pub fn append_bool(out: &mut String, b: bool)
    ensures
        final(out)@ == old(out)@ + json_bool(b),
{
    if b {
        out.append("true");
    } else {
        out.append("false");
    }
}

/// Appends an optional string field: `null` or a JSON string.
pub fn append_opt_str(out: &mut String, s: &Option<String>)
    ensures
        final(out)@ == old(out)@ + json_opt_str(opt_view(*s)),
{
    match s {
        None => out.append("null"),
        Some(v) => append_json_str(out, v.as_str()),
    }
}

/// Appends a date as `"YYYY-MM-DD"`.
pub fn append_date(out: &mut String, d: &Date)
    ensures
        final(out)@ == old(out)@ + json_date(*d),
{
    push_char(out, '"');
    append_dec_fixed(out, d.year as u32, 4);
    push_char(out, '-');
    append_dec_fixed(out, d.month as u32, 2);
    push_char(out, '-');
    append_dec_fixed(out, d.day as u32, 2);
    push_char(out, '"');
    assert(out@ =~= old(out)@ + json_date(*d));
}

} // verus!
