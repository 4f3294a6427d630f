//! Text building blocks: hexadecimal and decimal renderings of numbers
//! and byte strings, as used by the GDB remote serial protocol.

use vstd::prelude::*;

verus! {

/// The digit character for `d` (`0 <= d < 16`), lower or upper case.
pub open spec fn hex_digit(d: int, upper: bool) -> char {
    if d < 10 {
        (d + 48) as char
    } else if upper {
        (d + 55) as char
    } else {
        (d + 87) as char
    }
}

/// The minimal hexadecimal rendering of `n` (no leading zeros, `0` for zero),
/// as produced by the `{:x}` / `{:X}` formats.
pub open spec fn hex_text(n: nat, upper: bool) -> Seq<char>
    decreases n,
{
    if n < 16 {
        seq![hex_digit(n as int, upper)]
    } else {
        hex_text(n / 16, upper).push(hex_digit((n % 16) as int, upper))
    }
}

/// The minimal decimal rendering of `n`, as produced by the `{}` format.
pub open spec fn dec_text(n: nat) -> Seq<char>
    decreases n,
{
    if n < 10 {
        seq![hex_digit(n as int, false)]
    } else {
        dec_text(n / 10).push(hex_digit((n % 10) as int, false))
    }
}

/// A byte as exactly two hexadecimal digits (the `{:02x}` / `{:02X}` formats).
pub open spec fn byte_hex(b: u8, upper: bool) -> Seq<char> {
    seq![hex_digit((b / 16) as int, upper), hex_digit((b % 16) as int, upper)]
}

/// A byte string as two hexadecimal digits per byte, in order.
pub open spec fn hex_bytes(bytes: Seq<u8>, upper: bool) -> Seq<char>
    decreases bytes.len(),
{
    if bytes.len() == 0 {
        Seq::empty()
    } else {
        hex_bytes(bytes.drop_last(), upper) + byte_hex(bytes.last(), upper)
    }
}

/// The value of a hexadecimal digit character (either case); `-1` for any other character.
pub open spec fn hex_digit_value(c: char) -> int {
    if '0' <= c && c <= '9' {
        c as int - 48
    } else if 'a' <= c && c <= 'f' {
        c as int - 87
    } else if 'A' <= c && c <= 'F' {
        c as int - 55
    } else {
        -1
    }
}

/// Whether `c` is a hexadecimal digit character.
pub open spec fn is_hex_digit(c: char) -> bool {
    hex_digit_value(c) >= 0
}

/// The number that a string of hexadecimal digits denotes (most significant first).
pub open spec fn hex_value(s: Seq<char>) -> int
    decreases s.len(),
{
    if s.len() == 0 {
        0
    } else {
        hex_value(s.drop_last()) * 16 + hex_digit_value(s.last())
    }
}

/// The number that a string of decimal digits denotes (most significant first).
pub open spec fn dec_value(s: Seq<char>) -> int
    decreases s.len(),
{
    if s.len() == 0 {
        0
    } else {
        dec_value(s.drop_last()) * 10 + hex_digit_value(s.last())
    }
}

/// The bytes that a string of hexadecimal digit pairs denotes.
pub open spec fn hex_pairs_value(s: Seq<char>) -> Seq<u8>
    decreases s.len(),
{
    if s.len() < 2 {
        Seq::empty()
    } else {
        hex_pairs_value(s.subrange(0, s.len() - 2)).push(
            (hex_digit_value(s[s.len() - 2]) * 16 + hex_digit_value(s[s.len() - 1])) as u8,
        )
    }
}

/// Digit characters read back as the digit they stand for.
pub proof fn lemma_hex_digit_roundtrip(d: int, upper: bool)
    requires
        0 <= d < 16,
    ensures
        hex_digit_value(hex_digit(d, upper)) == d,
        is_hex_digit(hex_digit(d, upper)),
{
}

/// Hexadecimal rendering is lossless: reading the digits of `hex_text(n)`
/// back gives `n`, and every character is a hexadecimal digit.
pub proof fn lemma_hex_text_roundtrip(n: nat, upper: bool)
    ensures
        hex_value(hex_text(n, upper)) == n,
        hex_text(n, upper).len() > 0,
        forall|i: int| 0 <= i < hex_text(n, upper).len() ==> #[trigger] is_hex_digit(hex_text(n, upper)[i]),
    decreases n,
{
    if n < 16 {
        lemma_hex_digit_roundtrip(n as int, upper);
        assert(hex_text(n, upper).drop_last() =~= Seq::<char>::empty());
        assert(hex_value(Seq::<char>::empty()) == 0);
    } else {
        lemma_hex_text_roundtrip(n / 16, upper);
        lemma_hex_digit_roundtrip((n % 16) as int, upper);
        assert(hex_text(n, upper).drop_last() =~= hex_text(n / 16, upper));
        assert((n / 16) * 16 + n % 16 == n) by (nonlinear_arith);
    }
}

/// Decimal rendering is lossless: reading the digits of `dec_text(n)` back gives `n`,
/// and every character is a decimal digit.
pub proof fn lemma_dec_text_roundtrip(n: nat)
    ensures
        dec_value(dec_text(n)) == n,
        dec_text(n).len() > 0,
        forall|i: int| 0 <= i < dec_text(n).len() ==> '0' <= #[trigger] dec_text(n)[i] <= '9',
    decreases n,
{
    if n < 10 {
        lemma_hex_digit_roundtrip(n as int, false);
        assert(dec_text(n).drop_last() =~= Seq::<char>::empty());
        assert(dec_value(Seq::<char>::empty()) == 0);
    } else {
        lemma_dec_text_roundtrip(n / 10);
        lemma_hex_digit_roundtrip((n % 10) as int, false);
        assert(dec_text(n).drop_last() =~= dec_text(n / 10));
        assert((n / 10) * 10 + n % 10 == n) by (nonlinear_arith);
    }
}

/// Binary data travels as two hexadecimal digits per byte: the rendering is
/// twice as long as the data, uses only hexadecimal digits, and reading the
/// digit pairs back gives the data.
pub proof fn lemma_hex_bytes_roundtrip(bytes: Seq<u8>, upper: bool)
    ensures
        hex_bytes(bytes, upper).len() == 2 * bytes.len(),
        hex_pairs_value(hex_bytes(bytes, upper)) == bytes,
        forall|i: int| 0 <= i < hex_bytes(bytes, upper).len() ==> #[trigger] is_hex_digit(hex_bytes(bytes, upper)[i]),
    decreases bytes.len(),
{
    if bytes.len() > 0 {
        let prefix = bytes.drop_last();
        let b = bytes.last();
        lemma_hex_bytes_roundtrip(prefix, upper);
        lemma_hex_digit_roundtrip((b / 16) as int, upper);
        lemma_hex_digit_roundtrip((b % 16) as int, upper);
        let s = hex_bytes(bytes, upper);
        assert(s.subrange(0, s.len() - 2) =~= hex_bytes(prefix, upper));
        assert(s[s.len() - 2] == hex_digit((b / 16) as int, upper));
        assert(s[s.len() - 1] == hex_digit((b % 16) as int, upper));
        assert((b / 16) * 16 + b % 16 == b);
        assert(hex_pairs_value(s) =~= bytes);
        assert forall|i: int| 0 <= i < s.len() implies #[trigger] is_hex_digit(s[i]) by {
            if i < s.len() - 2 {
                assert(s[i] == hex_bytes(prefix, upper)[i]);
            }
        }
    } else {
        assert(hex_bytes(bytes, upper) =~= Seq::<char>::empty());
        assert(hex_pairs_value(Seq::<char>::empty()) =~= bytes);
    }
}

/// `String::push`: appends the character `c` at the end of `s`.
#[verifier::external_body]
pub(crate) fn push_char(s: &mut String, c: char)
    ensures
        final(s)@ == old(s)@.push(c),
{
    s.push(c);
}

/// Appends `t` at the end of `s`.
pub(crate) fn push_str(s: &mut String, t: &str)
    ensures
        final(s)@ == old(s)@ + t@,
{
    s.append(t);
}

/// The digit character for `d`.
pub(crate) fn digit_char(d: u8, upper: bool) -> (c: char)
    requires
        d < 16,
    ensures
        c == hex_digit(d as int, upper),
{
    if d < 10 {
        (d + 48) as char
    } else if upper {
        (d + 55) as char
    } else {
        (d + 87) as char
    }
}

/// Appends the minimal hexadecimal rendering of `n`.
pub(crate) fn push_hex(s: &mut String, n: u64, upper: bool)
    ensures
        final(s)@ == old(s)@ + hex_text(n as nat, upper),
    decreases n,
{
    if n >= 16 {
        push_hex(s, n / 16, upper);
    }
    let d = (n % 16) as u8;
    push_char(s, digit_char(d, upper));
}

/// Appends the minimal decimal rendering of `n`.
pub(crate) fn push_dec(s: &mut String, n: u64)
    ensures
        final(s)@ == old(s)@ + dec_text(n as nat),
    decreases n,
{
    if n >= 10 {
        push_dec(s, n / 10);
    }
    let d = (n % 10) as u8;
    push_char(s, digit_char(d, false));
}

/// Appends a byte as exactly two hexadecimal digits.
pub(crate) fn push_byte_hex(s: &mut String, b: u8, upper: bool)
    ensures
        final(s)@ == old(s)@ + byte_hex(b, upper),
{
    push_char(s, digit_char(b / 16, upper));
    push_char(s, digit_char(b % 16, upper));
}

/// Appends a byte string as two hexadecimal digits per byte.
pub(crate) fn push_hex_bytes(s: &mut String, bytes: &[u8], upper: bool)
    ensures
        final(s)@ == old(s)@ + hex_bytes(bytes@, upper),
{
    let ghost start = s@;
    let mut i: usize = 0;
    while i < bytes.len()
        invariant
            i <= bytes.len(),
            s@ == start + hex_bytes(bytes@.take(i as int), upper),
        decreases bytes.len() - i,
    {
        proof {
            assert(bytes@.take(i + 1).drop_last() =~= bytes@.take(i as int));
        }
        push_byte_hex(s, bytes[i], upper);
        i += 1;
    }
    assert(bytes@.take(i as int) =~= bytes@);
}

} // verus!
