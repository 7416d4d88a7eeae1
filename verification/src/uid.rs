//! Correlation identifiers.
//!
//! A correlation id is a 128-bit value, one per disbursement request. It is
//! used as the event-stream record key — in its canonical hyphenated
//! lowercase-hex string form — and as the registry lookup key. Formatting
//! and parsing of that string form are verified here; only drawing a fresh
//! random id is delegated to the `uuid` crate.

use vstd::prelude::*;
use vstd::string::*;

verus! {

/// A correlation id: a 128-bit value.
#[derive(Clone, Copy, Debug, PartialEq, Eq, Hash, Structural)]
pub struct Uid {
    pub value: u128,
}

/// `16^w`.
pub open spec fn pow16(w: nat) -> int
    decreases w,
{
    if w == 0 {
        1
    } else {
        16 * pow16((w - 1) as nat)
    }
}

/// The lowercase hex digit for a value in `[0, 16)`.
pub open spec fn hex_char(d: int) -> char {
    if d == 0 {
        '0'
    } else if d == 1 {
        '1'
    } else if d == 2 {
        '2'
    } else if d == 3 {
        '3'
    } else if d == 4 {
        '4'
    } else if d == 5 {
        '5'
    } else if d == 6 {
        '6'
    } else if d == 7 {
        '7'
    } else if d == 8 {
        '8'
    } else if d == 9 {
        '9'
    } else if d == 10 {
        'a'
    } else if d == 11 {
        'b'
    } else if d == 12 {
        'c'
    } else if d == 13 {
        'd'
    } else if d == 14 {
        'e'
    } else {
        'f'
    }
}

/// The value of a hex digit character, upper or lower case; `-1` for any
/// other character.
pub open spec fn hex_val(c: char) -> int {
    if 48 <= c as int && c as int <= 57 {
        c as int - 48
    } else if 97 <= c as int && c as int <= 102 {
        c as int - 97 + 10
    } else if 65 <= c as int && c as int <= 70 {
        c as int - 65 + 10
    } else {
        -1
    }
}

/// Whether `c` is a hex digit, upper or lower case.
pub open spec fn is_hex_digit(c: char) -> bool {
    hex_val(c) >= 0
}

/// `n` written as exactly `w` lowercase hex digits, most significant first.
pub open spec fn hex_fixed(n: int, w: nat) -> Seq<char>
    decreases w,
{
    if w == 0 {
        Seq::empty()
    } else {
        hex_fixed(n / 16, (w - 1) as nat) + seq![hex_char(n % 16)]
    }
}

/// The canonical string form of a correlation id: 32 lowercase hex digits
/// in five hyphen-separated groups of 8, 4, 4, 4 and 12.
pub open spec fn uid_chars(n: u128) -> Seq<char> {
    hex_fixed(n as int / pow16(24), 8) + seq!['-'] + hex_fixed((n as int / pow16(20)) % pow16(4), 4)
        + seq!['-'] + hex_fixed((n as int / pow16(16)) % pow16(4), 4) + seq!['-'] + hex_fixed(
        (n as int / pow16(12)) % pow16(4),
        4,
    ) + seq!['-'] + hex_fixed(n as int % pow16(12), 12)
}

/// Whether `s` has the shape of a hyphenated uuid string: 36 characters,
/// hyphens at positions 8, 13, 18 and 23, hex digits everywhere else.
pub open spec fn valid_uid_str(s: Seq<char>) -> bool {
    &&& s.len() == 36
    &&& s[8] == '-'
    &&& s[13] == '-'
    &&& s[18] == '-'
    &&& s[23] == '-'
    &&& forall|i: int|
        0 <= i < 36 && i != 8 && i != 13 && i != 18 && i != 23 ==> is_hex_digit(#[trigger] s[i])
}

/// The value of a sequence of hex digits, most significant first.
pub open spec fn hex_seq_val(s: Seq<char>) -> int
    decreases s.len(),
{
    if s.len() == 0 {
        0
    } else {
        hex_seq_val(s.drop_last()) * 16 + hex_val(s.last())
    }
}

/// The 32 hex digits of a hyphenated uuid string, hyphens removed.
pub open spec fn uid_digits(s: Seq<char>) -> Seq<char> {
    s.subrange(0, 8) + s.subrange(9, 13) + s.subrange(14, 18) + s.subrange(19, 23) + s.subrange(
        24,
        36,
    )
}

/// The value encoded by a hyphenated uuid string.
pub open spec fn uid_val(s: Seq<char>) -> int {
    hex_seq_val(uid_digits(s))
}

/// `pow16` at the widths the code uses.
pub proof fn lemma_pow16_values()
    ensures
        pow16(4) == 0x10000,
        pow16(8) == 0x1_0000_0000,
        pow16(12) == 0x1_0000_0000_0000,
        pow16(16) == 0x1_0000_0000_0000_0000,
        pow16(20) == 0x1_0000_0000_0000_0000_0000,
        pow16(24) == 0x1_0000_0000_0000_0000_0000_0000,
        pow16(32) == 0x1_0000_0000_0000_0000_0000_0000_0000_0000,
{
    reveal_with_fuel(pow16, 33);
    assert(pow16(4) == 0x10000);
    assert(pow16(8) == 0x1_0000_0000);
    assert(pow16(12) == 0x1_0000_0000_0000);
    assert(pow16(16) == 0x1_0000_0000_0000_0000);
    assert(pow16(20) == 0x1_0000_0000_0000_0000_0000);
    assert(pow16(24) == 0x1_0000_0000_0000_0000_0000_0000);
    assert(pow16(32) == 0x1_0000_0000_0000_0000_0000_0000_0000_0000);
}

/// `pow16` grows with its exponent.
pub proof fn lemma_pow16_mono(a: nat, b: nat)
    requires
        a <= b,
    ensures
        pow16(a) <= pow16(b),
    decreases b,
{
    if a < b {
        lemma_pow16_mono(a, (b - 1) as nat);
        assert(pow16(b) == 16 * pow16((b - 1) as nat));
        assert(pow16(a) >= 1) by {
            lemma_pow16_pos(a);
        };
    }
}

/// `pow16` is positive.
pub proof fn lemma_pow16_pos(a: nat)
    ensures
        pow16(a) >= 1,
    decreases a,
{
    if a > 0 {
        lemma_pow16_pos((a - 1) as nat);
    }
}

/// `hex_fixed` writes exactly `w` characters, all of them hex digits.
pub proof fn lemma_hex_fixed_shape(n: int, w: nat)
    requires
        0 <= n,
    ensures
        hex_fixed(n, w).len() == w,
        forall|i: int| 0 <= i < w ==> is_hex_digit(#[trigger] hex_fixed(n, w)[i]),
    decreases w,
{
    if w > 0 {
        lemma_hex_fixed_shape(n / 16, (w - 1) as nat);
    }
}

/// Reading back the digits `hex_fixed` wrote yields the value written,
/// as long as it fit in `w` digits.
pub proof fn lemma_hex_fixed_val(n: int, w: nat)
    requires
        0 <= n < pow16(w),
    ensures
        hex_seq_val(hex_fixed(n, w)) == n,
    decreases w,
{
    if w == 0 {
        assert(hex_fixed(n, 0) =~= Seq::<char>::empty());
    } else {
        assert(pow16(w) == 16 * pow16((w - 1) as nat));
        vstd::arithmetic::div_mod::lemma_fundamental_div_mod(n, 16);
        lemma_hex_fixed_val(n / 16, (w - 1) as nat);
        let s = hex_fixed(n, w);
        assert(s.drop_last() =~= hex_fixed(n / 16, (w - 1) as nat));
        assert(s.last() == hex_char(n % 16));
    }
}

/// The value of a concatenation of digit strings: the left part shifted
/// past the right part's width, plus the right part.
pub proof fn lemma_hex_seq_val_concat(a: Seq<char>, b: Seq<char>)
    ensures
        hex_seq_val(a + b) == hex_seq_val(a) * pow16(b.len()) + hex_seq_val(b),
    decreases b.len(),
{
    if b.len() == 0 {
        assert(a + b =~= a);
    } else {
        lemma_hex_seq_val_concat(a, b.drop_last());
        assert((a + b).drop_last() =~= a + b.drop_last());
        assert((a + b).last() == b.last());
        assert(pow16(b.len()) == 16 * pow16((b.len() - 1) as nat));
        assert(hex_seq_val(a + b) == (hex_seq_val(a) * pow16((b.len() - 1) as nat) + hex_seq_val(
            b.drop_last(),
        )) * 16 + hex_val(b.last()));
        assert(hex_seq_val(a) * pow16((b.len() - 1) as nat) * 16 == hex_seq_val(a) * pow16(
            b.len(),
        )) by {
            vstd::arithmetic::mul::lemma_mul_is_associative(
                hex_seq_val(a),
                pow16((b.len() - 1) as nat),
                16,
            );
        };
    }
}

/// Law: the canonical string form of a correlation id is a valid uuid
/// string, and parsing it yields the id back — the record key a publisher
/// writes is exactly what the reply listener decodes.
pub proof fn lemma_uid_round_trip(n: u128)
    ensures
        valid_uid_str(uid_chars(n)),
        uid_val(uid_chars(n)) == n as int,
{
    lemma_pow16_values();
    let h8 = hex_fixed(n as int / pow16(24), 8);
    let h4a = hex_fixed((n as int / pow16(20)) % pow16(4), 4);
    let h4b = hex_fixed((n as int / pow16(16)) % pow16(4), 4);
    let h4c = hex_fixed((n as int / pow16(12)) % pow16(4), 4);
    let h12 = hex_fixed(n as int % pow16(12), 12);
    let s = uid_chars(n);
    lemma_hex_fixed_shape(n as int / pow16(24), 8);
    lemma_hex_fixed_shape((n as int / pow16(20)) % pow16(4), 4);
    lemma_hex_fixed_shape((n as int / pow16(16)) % pow16(4), 4);
    lemma_hex_fixed_shape((n as int / pow16(12)) % pow16(4), 4);
    lemma_hex_fixed_shape(n as int % pow16(12), 12);
    assert(s.len() == 36);
    assert(valid_uid_str(s));
    assert(uid_digits(s) =~= h8 + h4a + h4b + h4c + h12);

    // the value of each group is the matching slice of n
    assert((n as int / pow16(24)) < pow16(8)) by {
        vstd::arithmetic::div_mod::lemma_fundamental_div_mod(n as int, pow16(24));
    };
    lemma_hex_fixed_val(n as int / pow16(24), 8);
    lemma_hex_fixed_val((n as int / pow16(20)) % pow16(4), 4);
    lemma_hex_fixed_val((n as int / pow16(16)) % pow16(4), 4);
    lemma_hex_fixed_val((n as int / pow16(12)) % pow16(4), 4);
    lemma_hex_fixed_val(n as int % pow16(12), 12);

    // fold the groups left to right: each prefix reads back a quotient of n
    lemma_hex_seq_val_concat(h8, h4a);
    lemma_hex_seq_val_concat(h8 + h4a, h4b);
    lemma_hex_seq_val_concat(h8 + h4a + h4b, h4c);
    lemma_hex_seq_val_concat(h8 + h4a + h4b + h4c, h12);
    lemma_prefix_quotient(n as int, 24, 20);
    lemma_prefix_quotient(n as int, 20, 16);
    lemma_prefix_quotient(n as int, 16, 12);
    assert(hex_seq_val(h8 + h4a) == n as int / pow16(20));
    assert(hex_seq_val(h8 + h4a + h4b) == n as int / pow16(16));
    assert(hex_seq_val(h8 + h4a + h4b + h4c) == n as int / pow16(12));
    vstd::arithmetic::div_mod::lemma_fundamental_div_mod(n as int, pow16(12));
    assert(hex_seq_val(uid_digits(s)) == n as int);
}

/// Extending a high-order quotient of `x` by the next digit group gives
/// the next quotient: `(x / 16^a) * 16^(a-b) + (x / 16^b) % 16^(a-b)`
/// equals `x / 16^b`.
proof fn lemma_prefix_quotient(x: int, a: nat, b: nat)
    requires
        0 <= x,
        b <= a,
    ensures
        (x / pow16(a)) * pow16((a - b) as nat) + (x / pow16(b)) % pow16((a - b) as nat) == x
            / pow16(b),
{
    let w = (a - b) as nat;
    lemma_pow16_pos(a);
    lemma_pow16_pos(b);
    lemma_pow16_pos(w);
    assert(pow16(b) * pow16(w) == pow16(a)) by {
        lemma_pow16_mul(b, w);
    };
    vstd::arithmetic::div_mod::lemma_div_denominator(x, pow16(b), pow16(w));
    assert((x / pow16(b)) / pow16(w) == x / pow16(a));
    vstd::arithmetic::div_mod::lemma_fundamental_div_mod(x / pow16(b), pow16(w));
    assert(x / pow16(b) == pow16(w) * ((x / pow16(b)) / pow16(w)) + (x / pow16(b)) % pow16(w));
    vstd::arithmetic::mul::lemma_mul_is_commutative(pow16(w), x / pow16(a));
}

/// `16^a * 16^b == 16^(a+b)`.
proof fn lemma_pow16_mul(a: nat, b: nat)
    ensures
        pow16(a) * pow16(b) == pow16((a + b) as nat),
    decreases b,
{
    if b == 0 {
        assert(pow16(0) == 1);
    } else {
        lemma_pow16_mul(a, (b - 1) as nat);
        assert(pow16(b) == 16 * pow16((b - 1) as nat));
        assert(pow16((a + b) as nat) == 16 * pow16((a + b - 1) as nat));
        assert(pow16(a) * pow16(b) == pow16(a) * (16 * pow16((b - 1) as nat)));
        vstd::arithmetic::mul::lemma_mul_is_associative(pow16(a), 16, pow16((b - 1) as nat));
        vstd::arithmetic::mul::lemma_mul_is_commutative(pow16(a), 16);
        vstd::arithmetic::mul::lemma_mul_is_associative(16, pow16(a), pow16((b - 1) as nat));
    }
}

/// Appends the lowercase hex digit for `d` to `out`.
pub(crate) fn append_hex_digit(out: &mut String, d: u8)
    requires
        d < 16,
    ensures
        final(out)@ == old(out)@ + seq![hex_char(d as int)],
{
    proof {
        reveal_strlit("0");
        reveal_strlit("1");
        reveal_strlit("2");
        reveal_strlit("3");
        reveal_strlit("4");
        reveal_strlit("5");
        reveal_strlit("6");
        reveal_strlit("7");
        reveal_strlit("8");
        reveal_strlit("9");
        reveal_strlit("a");
        reveal_strlit("b");
        reveal_strlit("c");
        reveal_strlit("d");
        reveal_strlit("e");
        reveal_strlit("f");
    }
    match d {
        0 => out.append("0"),
        1 => out.append("1"),
        2 => out.append("2"),
        3 => out.append("3"),
        4 => out.append("4"),
        5 => out.append("5"),
        6 => out.append("6"),
        7 => out.append("7"),
        8 => out.append("8"),
        9 => out.append("9"),
        10 => out.append("a"),
        11 => out.append("b"),
        12 => out.append("c"),
        13 => out.append("d"),
        14 => out.append("e"),
        _ => out.append("f"),
    }
    assert(out@ =~= old(out)@ + seq![hex_char(d as int)]);
}

/// Appends `n` as exactly `w` lowercase hex digits.
fn append_hex_fixed(out: &mut String, n: u64, w: u32)
    requires
        w <= 16,
        (n as int) < pow16(w as nat),
    ensures
        final(out)@ == old(out)@ + hex_fixed(n as int, w as nat),
    decreases w,
{
    if w == 0 {
        assert(out@ =~= old(out)@ + hex_fixed(n as int, 0));
        return ;
    }
    proof {
        assert(pow16(w as nat) == 16 * pow16((w - 1) as nat));
        assert(((n / 16) as int) < pow16((w - 1) as nat)) by {
            vstd::arithmetic::div_mod::lemma_fundamental_div_mod(n as int, 16);
        };
    }
    append_hex_fixed(out, n / 16, w - 1);
    append_hex_digit(out, (n % 16) as u8);
    assert(out@ =~= old(out)@ + hex_fixed(n as int, w as nat));
}

/// Appends a hyphen to `out`.
fn append_hyphen(out: &mut String)
    ensures
        final(out)@ == old(out)@ + seq!['-'],
{
    proof {
        reveal_strlit("-");
    }
    out.append("-");
    assert(out@ =~= old(out)@ + seq!['-']);
}

impl Uid {
    /// Builds an id from its 128-bit value.
    pub fn new(value: u128) -> (r: Uid)
        ensures
            r.value == value,
    {
        Uid { value }
    }

    /// The canonical hyphenated lowercase-hex string form, as used for the
    /// event-stream record key.
    pub fn to_hyphenated(&self) -> (r: String)
        ensures
            r@ == uid_chars(self.value),
    {
        proof {
            lemma_pow16_values();
        }
        let mut out = String::new();
        let seg1: u64 = (self.value / 0x1_0000_0000_0000_0000_0000_0000u128) as u64;
        let seg2: u64 = ((self.value / 0x1_0000_0000_0000_0000_0000u128) % 0x10000u128) as u64;
        let seg3: u64 = ((self.value / 0x1_0000_0000_0000_0000u128) % 0x10000u128) as u64;
        let seg4: u64 = ((self.value / 0x1_0000_0000_0000u128) % 0x10000u128) as u64;
        let seg5: u64 = (self.value % 0x1_0000_0000_0000u128) as u64;
        assert(seg1 as int == self.value as int / pow16(24));
        assert((seg1 as int) < pow16(8)) by {
            vstd::arithmetic::div_mod::lemma_fundamental_div_mod(
                self.value as int,
                pow16(24),
            );
        };
        append_hex_fixed(&mut out, seg1, 8);
        append_hyphen(&mut out);
        append_hex_fixed(&mut out, seg2, 4);
        append_hyphen(&mut out);
        append_hex_fixed(&mut out, seg3, 4);
        append_hyphen(&mut out);
        append_hex_fixed(&mut out, seg4, 4);
        append_hyphen(&mut out);
        append_hex_fixed(&mut out, seg5, 12);
        assert(out@ =~= uid_chars(self.value));
        out
    }
}

/// The value of a hex digit character, or `None` when `c` is no hex digit.
fn hex_digit_val(c: char) -> (r: Option<u8>)
    ensures
        match r {
            Some(v) => is_hex_digit(c) && v as int == hex_val(c) && v < 16,
            None => !is_hex_digit(c),
        },
{
    let u = c as u32;
    if 48 <= u && u <= 57 {
        Some((u - 48) as u8)
    } else if 97 <= u && u <= 102 {
        Some((u - 97 + 10) as u8)
    } else if 65 <= u && u <= 70 {
        Some((u - 65 + 10) as u8)
    } else {
        None
    }
}

/// Parses the hyphenated uuid form. Returns the id exactly when `s` is 36
/// characters with hyphens at positions 8, 13, 18 and 23 and hex digits
/// (either case) everywhere else.
fn parse_hyphenated(s: &str) -> (r: Option<Uid>)
    ensures
        match r {
            Some(u) => valid_uid_str(s@) && u.value as int == uid_val(s@),
            None => !valid_uid_str(s@),
        },
{
    proof {
        lemma_pow16_values();
    }
    let n = s.unicode_len();
    if n != 36 {
        return None;
    }
    let mut acc: u128 = 0;
    let mut i: usize = 0;
    while i < 36
        invariant
            s@.len() == 36,
            0 <= i <= 36,
            acc as int == hex_seq_val(prefix_digits(s@, i as int)),
            (acc as int) < pow16(prefix_digits(s@, i as int).len()),
            prefix_digits(s@, i as int).len() <= 32,
            forall|j: int|
                0 <= j < i && j != 8 && j != 13 && j != 18 && j != 23 ==> is_hex_digit(
                    #[trigger] s@[j],
                ),
            i > 8 ==> s@[8] == '-',
            i > 13 ==> s@[13] == '-',
            i > 18 ==> s@[18] == '-',
            i > 23 ==> s@[23] == '-',
        decreases 36 - i,
    {
        let c = s.get_char(i);
        if i == 8 || i == 13 || i == 18 || i == 23 {
            if c != '-' {
                return None;
            }
            assert(prefix_digits(s@, i as int + 1) =~= prefix_digits(s@, i as int));
        } else {
            match hex_digit_val(c) {
                None => {
                    return None;
                },
                Some(v) => {
                    proof {
                        lemma_pow16_values();
                        lemma_pow16_mono(prefix_digits(s@, i as int).len(), 31);
                        assert(prefix_digits(s@, i as int + 1) =~= prefix_digits(s@, i as int)
                            + seq![s@[i as int]]);
                        assert(prefix_digits(s@, i as int + 1).drop_last() =~= prefix_digits(
                            s@,
                            i as int,
                        ));
                        assert(pow16(prefix_digits(s@, i as int + 1).len()) == 16 * pow16(
                            prefix_digits(s@, i as int).len(),
                        ));
                    }
                    acc = acc * 16 + (v as u128);
                },
            }
        }
        i += 1;
    }
    assert(valid_uid_str(s@));
    assert(prefix_digits(s@, 36) =~= uid_digits(s@));
    Some(Uid { value: acc })
}

/// The hex digits among the first `i` characters of `s` (hyphen positions
/// skipped): the prefix of `uid_digits` that a left-to-right scan has seen.
pub open spec fn prefix_digits(s: Seq<char>, i: int) -> Seq<char> {
    if i <= 8 {
        s.subrange(0, i)
    } else if i <= 9 {
        s.subrange(0, 8)
    } else if i <= 13 {
        s.subrange(0, 8) + s.subrange(9, i)
    } else if i <= 14 {
        s.subrange(0, 8) + s.subrange(9, 13)
    } else if i <= 18 {
        s.subrange(0, 8) + s.subrange(9, 13) + s.subrange(14, i)
    } else if i <= 19 {
        s.subrange(0, 8) + s.subrange(9, 13) + s.subrange(14, 18)
    } else if i <= 23 {
        s.subrange(0, 8) + s.subrange(9, 13) + s.subrange(14, 18) + s.subrange(19, i)
    } else if i <= 24 {
        s.subrange(0, 8) + s.subrange(9, 13) + s.subrange(14, 18) + s.subrange(19, 23)
    } else {
        s.subrange(0, 8) + s.subrange(9, 13) + s.subrange(14, 18) + s.subrange(19, 23)
            + s.subrange(24, i)
    }
}

/// The simple uuid form: 32 hex digits, no hyphens.
pub open spec fn valid_simple_str(s: Seq<char>) -> bool {
    &&& s.len() == 32
    &&& forall|i: int| 0 <= i < 32 ==> is_hex_digit(#[trigger] s[i])
}

/// The case-insensitive `urn:uuid:` prefix.
pub open spec fn is_urn_prefix(s: Seq<char>) -> bool {
    &&& (s[0] == 'u' || s[0] == 'U')
    &&& (s[1] == 'r' || s[1] == 'R')
    &&& (s[2] == 'n' || s[2] == 'N')
    &&& s[3] == ':'
    &&& (s[4] == 'u' || s[4] == 'U')
    &&& (s[5] == 'u' || s[5] == 'U')
    &&& (s[6] == 'i' || s[6] == 'I')
    &&& (s[7] == 'd' || s[7] == 'D')
    &&& s[8] == ':'
}

/// The braced uuid form: a hyphenated uuid in curly braces.
pub open spec fn valid_braced_str(s: Seq<char>) -> bool {
    &&& s.len() == 38
    &&& s[0] == '{'
    &&& s[37] == '}'
    &&& valid_uid_str(s.subrange(1, 37))
}

/// The URN uuid form: a hyphenated uuid after a case-insensitive
/// `urn:uuid:` prefix.
pub open spec fn valid_urn_str(s: Seq<char>) -> bool {
    &&& s.len() == 45
    &&& is_urn_prefix(s)
    &&& valid_uid_str(s.subrange(9, 45))
}

/// Any of the four uuid string forms: hyphenated, simple, braced, or URN.
/// The forms have distinct lengths, so at most one applies.
pub open spec fn valid_uuid_any(s: Seq<char>) -> bool {
    valid_uid_str(s) || valid_simple_str(s) || valid_braced_str(s) || valid_urn_str(s)
}

/// The value encoded by a uuid string in whichever of the four forms it
/// takes.
pub open spec fn uuid_any_val(s: Seq<char>) -> int {
    if valid_uid_str(s) {
        uid_val(s)
    } else if valid_simple_str(s) {
        hex_seq_val(s)
    } else if valid_braced_str(s) {
        uid_val(s.subrange(1, 37))
    } else {
        uid_val(s.subrange(9, 45))
    }
}

/// Parses the simple uuid form: exactly 32 hex digits, either case.
fn parse_simple(s: &str) -> (r: Option<Uid>)
    ensures
        match r {
            Some(u) => valid_simple_str(s@) && u.value as int == hex_seq_val(s@),
            None => !valid_simple_str(s@),
        },
{
    proof {
        lemma_pow16_values();
    }
    let n = s.unicode_len();
    if n != 32 {
        return None;
    }
    let mut acc: u128 = 0;
    let mut i: usize = 0;
    while i < 32
        invariant
            s@.len() == 32,
            0 <= i <= 32,
            acc as int == hex_seq_val(s@.subrange(0, i as int)),
            (acc as int) < pow16(i as nat),
            forall|j: int| 0 <= j < i ==> is_hex_digit(#[trigger] s@[j]),
        decreases 32 - i,
    {
        let c = s.get_char(i);
        match hex_digit_val(c) {
            None => {
                return None;
            },
            Some(v) => {
                proof {
                    lemma_pow16_values();
                    lemma_pow16_mono(i as nat, 31);
                    assert(s@.subrange(0, i as int + 1).drop_last() =~= s@.subrange(0, i as int));
                    assert(s@.subrange(0, i as int + 1).last() == s@[i as int]);
                    assert(pow16((i + 1) as nat) == 16 * pow16(i as nat));
                }
                acc = acc * 16 + (v as u128);
            },
        }
        i += 1;
    }
    proof {
        assert(s@.subrange(0, 32) =~= s@);
    }
    Some(Uid { value: acc })
}

/// Whether `s` starts with `urn:uuid:`, any letter case.
fn has_urn_prefix(s: &str) -> (r: bool)
    requires
        s@.len() >= 9,
    ensures
        r == is_urn_prefix(s@),
{
    let c0 = s.get_char(0);
    let c1 = s.get_char(1);
    let c2 = s.get_char(2);
    let c3 = s.get_char(3);
    let c4 = s.get_char(4);
    let c5 = s.get_char(5);
    let c6 = s.get_char(6);
    let c7 = s.get_char(7);
    let c8 = s.get_char(8);
    (c0 == 'u' || c0 == 'U') && (c1 == 'r' || c1 == 'R') && (c2 == 'n' || c2 == 'N') && c3 == ':'
        && (c4 == 'u' || c4 == 'U') && (c5 == 'u' || c5 == 'U') && (c6 == 'i' || c6 == 'I') && (c7
        == 'd' || c7 == 'D') && c8 == ':'
}

/// Parses a correlation id from any of the four uuid string forms the
/// stream's peers may use as a record key: hyphenated (36 characters),
/// simple (32 hex digits), braced (`{…}`, 38), or URN (`urn:uuid:…`, 45,
/// prefix case-insensitive). Hex digits may be either case. Returns the
/// id exactly when `s` is one of those forms.
pub fn parse_uid(s: &str) -> (r: Option<Uid>)
    ensures
        match r {
            Some(u) => valid_uuid_any(s@) && u.value as int == uuid_any_val(s@),
            None => !valid_uuid_any(s@),
        },
{
    let n = s.unicode_len();
    if n == 36 {
        parse_hyphenated(s)
    } else if n == 32 {
        parse_simple(s)
    } else if n == 38 {
        if s.get_char(0) != '{' || s.get_char(37) != '}' {
            return None;
        }
        let inner = s.substring_char(1, 37);
        match parse_hyphenated(inner) {
            None => None,
            Some(u) => Some(u),
        }
    } else if n == 45 {
        if !has_urn_prefix(s) {
            return None;
        }
        let inner = s.substring_char(9, 45);
        match parse_hyphenated(inner) {
            None => None,
            Some(u) => Some(u),
        }
    } else {
        None
    }
}

/// Accepts a caller-supplied correlation id, or draws a fresh one when the
/// caller supplied none.
pub fn ensure_uid(supplied: Option<Uid>) -> (r: Uid)
    ensures
        supplied is Some ==> r == supplied->Some_0,
{
    match supplied {
        Some(u) => u,
        None => fresh_uid(),
    }
}

/// Relies on `uuid::Uuid::new_v4` for a fresh random id and
/// `uuid::Uuid::as_u128` for its 128-bit value. The value is random;
/// `new_v4` masks in the version nibble (4) and the RFC variant bits, and
/// only that much is promised.
#[verifier::external_body]
fn fresh_uid() -> (r: Uid)
    ensures
        (r.value >> 76) & 0xf == 4,
        (r.value >> 62) & 3 == 2,
{
    Uid { value: uuid::Uuid::new_v4().as_u128() }
}

} // verus!
