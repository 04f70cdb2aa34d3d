//! The `primitive` command: an integer read from text, encoded as an Ion `VarUInt` or `VarInt`,
//! and shown as hex and binary.
use vstd::prelude::*;

use crate::text::{str_equals, str_starts_with, string_from_chars};

verus! {

/// The value of a digit character in any radix up to 36: `0`-`9`, then `a`-`z` or `A`-`Z`.
pub open spec fn digit_value(c: char) -> Option<nat> {
    if '0' <= c && c <= '9' {
        Some((c as nat - '0' as nat) as nat)
    } else if 'a' <= c && c <= 'z' {
        Some((c as nat - 'a' as nat + 10) as nat)
    } else if 'A' <= c && c <= 'Z' {
        Some((c as nat - 'A' as nat + 10) as nat)
    } else {
        None
    }
}

/// The value of the digits `s` in `radix`, if each is a digit of that radix.
pub open spec fn digits_value(s: Seq<char>, radix: nat) -> Option<int>
    decreases s.len(),
{
    if s.len() == 0 {
        Some(0)
    } else {
        match (digits_value(s.drop_last(), radix), digit_value(s.last())) {
            (Some(v), Some(d)) => if d < radix {
                Some(v * radix + d)
            } else {
                None
            },
            _ => None,
        }
    }
}

/// The `i64` that `s` denotes in `radix`, as `i64::from_str_radix` reads it: an optional `+` or
/// `-` followed by one or more digits of the radix, in the range of `i64`.
pub open spec fn radix_value(s: Seq<char>, radix: nat) -> Option<i64> {
    let negative = s.len() > 0 && s[0] == '-';
    let digits = if s.len() > 0 && (s[0] == '+' || s[0] == '-') {
        s.drop_first()
    } else {
        s
    };
    if digits.len() == 0 {
        None
    } else {
        match digits_value(digits, radix) {
            Some(v) => {
                let x = if negative {
                    -v
                } else {
                    v
                };
                if i64::MIN <= x && x <= i64::MAX {
                    Some(x as i64)
                } else {
                    None
                }
            },
            None => None,
        }
    }
}

/// Calls std's `i64::from_str_radix` on `text`: the value that `text` denotes in `radix`, or
/// `None` where it denotes none.
#[verifier::external_body]
pub(crate) fn i64_from_str_radix(text: &str, radix: u32) -> (r: Option<i64>)
    requires
        2 <= radix <= 36,
    ensures
        r == radix_value(text@, radix as nat),
{
    i64::from_str_radix(text, radix).ok()
}

pub open spec fn not_valid_text(text: Seq<char>, kind: Seq<char>) -> Seq<char> {
    text + " is not a valid "@ + kind + " integer value."@
}

/// The integer that `text` denotes: text that starts with `0x` is read as hexadecimal and text
/// that starts with `0b` as binary, both including that prefix; any other text as decimal.
pub open spec fn integer_of_text(text: Seq<char>) -> Result<i64, Seq<char>> {
    if text.len() >= 2 && text.subrange(0, 2) == "0x"@ {
        match radix_value(text, 16) {
            Some(v) => Ok(v),
            None => Err(not_valid_text(text, "hexidecimal"@)),
        }
    } else if text.len() >= 2 && text.subrange(0, 2) == "0b"@ {
        match radix_value(text, 2) {
            Some(v) => Ok(v),
            None => Err(not_valid_text(text, "binary"@)),
        }
    } else {
        match radix_value(text, 10) {
            Some(v) => Ok(v),
            None => Err(not_valid_text(text, "decimal"@)),
        }
    }
}

fn not_valid(text: &str, kind: &str) -> (r: String)
    ensures
        r@ == not_valid_text(text@, kind@),
{
    let mut s = String::from_str(text);
    s.append(" is not a valid ");
    s.append(kind);
    s.append(" integer value.");
    s
}

/// Reads an integer from `text`; an error says which kind of integer `text` is not.
pub fn integer_from_text(text: &str) -> (r: Result<i64, String>)
    ensures
        match r {
            Ok(v) => integer_of_text(text@) == Ok::<i64, Seq<char>>(v),
            Err(e) => integer_of_text(text@) == Err::<i64, Seq<char>>(e@),
        },
{
    proof {
        reveal_strlit("0x");
        reveal_strlit("0b");
    }
    if str_starts_with(text, "0x") {
        match i64_from_str_radix(text, 16) {
            Some(v) => Ok(v),
            None => Err(not_valid(text, "hexidecimal")),
        }
    } else if str_starts_with(text, "0b") {
        match i64_from_str_radix(text, 2) {
            Some(v) => Ok(v),
            None => Err(not_valid(text, "binary")),
        }
    } else {
        match i64_from_str_radix(text, 10) {
            Some(v) => Ok(v),
            None => Err(not_valid(text, "decimal")),
        }
    }
}

/// The base-128 digits of `n`, most significant first, without leading zero digits (one digit
/// for zero).
pub open spec fn base128(n: nat) -> Seq<nat>
    decreases n,
{
    if n < 128 {
        seq![n]
    } else {
        base128(n / 128).push(n % 128)
    }
}

/// The groups of a `VarInt` magnitude: base-128 digits, of which the first holds at most six
/// bits.
pub open spec fn var_int_groups(m: nat) -> Seq<nat>
    decreases m,
{
    if m < 64 {
        seq![m]
    } else {
        var_int_groups(m / 128).push(m % 128)
    }
}

/// Bytes from 7-bit groups, the last with the end flag (the high bit) set.
pub open spec fn end_flagged(g: Seq<nat>) -> Seq<u8> {
    Seq::new(
        g.len(),
        |i: int|
            if i == g.len() - 1 {
                (g[i] + 128) as u8
            } else {
                g[i] as u8
            },
    )
}

/// The Ion `VarUInt` encoding of `n`: its big-endian 7-bit groups, the end flag set on the last
/// byte only.
pub open spec fn var_uint_bytes(n: nat) -> Seq<u8> {
    end_flagged(base128(n))
}

/// The Ion `VarInt` encoding of `v`: like a `VarUInt` of its magnitude, except that the first byte
/// holds six magnitude bits and the sign (`0x40`, set for negative values).
pub open spec fn var_int_bytes(v: int) -> Seq<u8> {
    let m = if v < 0 {
        -v
    } else {
        v
    };
    let g = var_int_groups(m as nat);
    end_flagged(g.update(0, g[0] + if v < 0 {
        64nat
    } else {
        0nat
    }))
}

/// Calls ion_rs's `VarUInt::write_u64` with a vector as the sink, which it cannot fail to write
/// to; the bytes written are the `VarUInt` encoding of `value`.
#[verifier::external_body]
fn write_var_uint(value: u64) -> (r: Vec<u8>)
    ensures
        r@ == var_uint_bytes(value as nat),
{
    let mut buffer: Vec<u8> = Vec::new();
    let _ = ion_rs::v1_0::VarUInt::write_u64(&mut buffer, value);
    buffer
}

/// Calls ion_rs's `VarInt::write_i64` with a vector as the sink, which it cannot fail to write
/// to; the bytes written are the `VarInt` encoding of `value`.
#[verifier::external_body]
fn write_var_int(value: i64) -> (r: Vec<u8>)
    ensures
        r@ == var_int_bytes(value as int),
{
    let mut buffer: Vec<u8> = Vec::new();
    let _ = ion_rs::v1_0::VarInt::write_i64(&mut buffer, value);
    buffer
}

/// Whether `t` names an encoding primitive that the command accepts.
pub open spec fn is_primitive_name(t: Seq<char>) -> bool {
    t == "varuint"@ || t == "VarUInt"@ || t == "varint"@ || t == "VarInt"@
}

/// The encoding of the integer in `value_text` as the primitive named `primitive`: a `VarUInt`
/// of the integer taken as an unsigned 64-bit number (its two's complement for negative
/// integers), or a `VarInt`.
pub fn encode_primitive(primitive: &str, value_text: &str) -> (r: Result<Vec<u8>, String>)
    requires
        is_primitive_name(primitive@),
    ensures
        match integer_of_text(value_text@) {
            Err(e) => r matches Err(f) && f@ == e,
            Ok(v) => r matches Ok(bytes) && bytes@ == if primitive@ == "varuint"@ || primitive@
                == "VarUInt"@ {
                var_uint_bytes((v as u64) as nat)
            } else {
                var_int_bytes(v as int)
            },
        },
{
    let value = match integer_from_text(value_text) {
        Ok(v) => v,
        Err(e) => return Err(e),
    };
    if str_equals(primitive, "varuint") || str_equals(primitive, "VarUInt") {
        Ok(write_var_uint(value as u64))
    } else {
        Ok(write_var_int(value))
    }
}

/// The character of a hexadecimal digit, in lower case.
pub open spec fn hex_digit(d: nat) -> char {
    if d < 10 {
        ('0' as nat + d) as char
    } else {
        ('a' as nat + d - 10) as char
    }
}

/// The lowest `k` binary digits of `b`, most significant first.
pub open spec fn bin_digits(b: nat, k: nat) -> Seq<char>
    decreases k,
{
    if k == 0 {
        Seq::empty()
    } else {
        bin_digits(b / 2, (k - 1) as nat).push(if b % 2 == 1 {
            '1'
        } else {
            '0'
        })
    }
}

/// Each byte as six spaces, two hexadecimal digits and a space.
pub open spec fn hex_cells(bytes: Seq<u8>) -> Seq<char>
    decreases bytes.len(),
{
    if bytes.len() == 0 {
        Seq::empty()
    } else {
        hex_cells(bytes.drop_last()) + "      "@ + seq![
            hex_digit(bytes.last() as nat / 16),
            hex_digit(bytes.last() as nat % 16),
        ] + " "@
    }
}

/// Each byte as eight binary digits and a space.
pub open spec fn bin_cells(bytes: Seq<u8>) -> Seq<char>
    decreases bytes.len(),
{
    if bytes.len() == 0 {
        Seq::empty()
    } else {
        bin_cells(bytes.drop_last()) + bin_digits(bytes.last() as nat, 8) + " "@
    }
}

/// The report of encoded bytes: a line with `hex: ` and the bytes in hexadecimal, aligned with
/// the line with `bin: ` and the bytes in binary.
pub open spec fn primitive_report_text(bytes: Seq<u8>) -> Seq<char> {
    "hex: "@ + hex_cells(bytes) + "\n"@ + "bin: "@ + bin_cells(bytes) + "\n"@
}

fn hex_digit_char(d: u8) -> (r: char)
    requires
        d < 16,
    ensures
        r == hex_digit(d as nat),
{
    if d < 10 {
        ((48 + d) as u8) as char
    } else {
        ((97 + d - 10) as u8) as char
    }
}

fn push_str(out: &mut Vec<char>, s: &str)
    ensures
        final(out)@ == old(out)@ + s@,
{
    let n = s.unicode_len();
    let mut i: usize = 0;
    let ghost start = out@;
    while i < n
        invariant
            n == s@.len(),
            i <= n,
            out@ == start + s@.subrange(0, i as int),
        decreases n - i,
    {
        out.push(s.get_char(i));
        i = i + 1;
        assert(out@ =~= start + s@.subrange(0, i as int));
    }
    assert(s@.subrange(0, n as int) =~= s@);
}

fn push_bin_digits(out: &mut Vec<char>, b: u8, k: u8)
    requires
        k <= 8,
    ensures
        final(out)@ == old(out)@ + bin_digits(b as nat, k as nat),
    decreases k,
{
    if k > 0 {
        push_bin_digits(out, b / 2, k - 1);
        if b % 2 == 1 {
            out.push('1');
        } else {
            out.push('0');
        }
        assert(final(out)@ =~= old(out)@ + bin_digits(b as nat, k as nat));
    }
}

/// Shows `bytes` in hexadecimal and in binary, one line each.
pub fn primitive_report(bytes: &Vec<u8>) -> (r: String)
    ensures
        r@ == primitive_report_text(bytes@),
{
    let mut out: Vec<char> = Vec::new();
    proof {
        reveal_strlit("hex: ");
    }
    push_str(&mut out, "hex: ");
    let mut i: usize = 0;
    while i < bytes.len()
        invariant
            i <= bytes@.len(),
            out@ == "hex: "@ + hex_cells(bytes@.subrange(0, i as int)),
        decreases bytes@.len() - i,
    {
        let b = bytes[i];
        push_str(&mut out, "      ");
        out.push(hex_digit_char(b / 16));
        out.push(hex_digit_char(b % 16));
        push_str(&mut out, " ");
        let ghost sub = bytes@.subrange(0, i + 1);
        assert(sub.drop_last() =~= bytes@.subrange(0, i as int));
        i = i + 1;
        assert(out@ =~= "hex: "@ + hex_cells(bytes@.subrange(0, i as int)));
    }
    assert(bytes@.subrange(0, bytes@.len() as int) =~= bytes@);
    let ghost hex_part = out@;
    push_str(&mut out, "\n");
    push_str(&mut out, "bin: ");
    let ghost prefix = out@;
    let mut j: usize = 0;
    while j < bytes.len()
        invariant
            j <= bytes@.len(),
            out@ == prefix + bin_cells(bytes@.subrange(0, j as int)),
        decreases bytes@.len() - j,
    {
        push_bin_digits(&mut out, bytes[j], 8);
        push_str(&mut out, " ");
        let ghost sub = bytes@.subrange(0, j + 1);
        assert(sub.drop_last() =~= bytes@.subrange(0, j as int));
        j = j + 1;
        assert(out@ =~= prefix + bin_cells(bytes@.subrange(0, j as int)));
    }
    push_str(&mut out, "\n");
    assert(out@ =~= primitive_report_text(bytes@));
    string_from_chars(&out)
}

} // verus!
