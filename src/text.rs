//! Byte- and character-level helpers shared by the routing code.

use vstd::prelude::*;
use vstd::string::*;

verus! {

/// The UTF-8 bytes of a character sequence.
pub open spec fn utf8(s: Seq<char>) -> Seq<u8> {
    vstd::utf8::encode_utf8(s)
}

/// Whether `prefix` is a byte prefix of `whole`.
pub fn bytes_start_with(whole: &[u8], prefix: &[u8]) -> (r: bool)
    ensures
        r == prefix@.is_prefix_of(whole@),
{
    if prefix.len() > whole.len() {
        return false;
    }
    let mut i: usize = 0;
    while i < prefix.len()
        invariant
            prefix@.len() <= whole@.len(),
            i <= prefix@.len(),
            forall|j: int| 0 <= j < i ==> prefix@[j] == whole@[j],
        decreases prefix@.len() - i,
    {
        if prefix[i] != whole[i] {
            return false;
        }
        i = i + 1;
    }
    assert(prefix@ =~= whole@.subrange(0, prefix@.len() as int));
    true
}

/// Whether two byte strings are equal.
pub fn bytes_equal(a: &[u8], b: &[u8]) -> (r: bool)
    ensures
        r == (a@ == b@),
{
    if a.len() != b.len() {
        return false;
    }
    let r = bytes_start_with(a, b);
    proof {
        if r {
            assert(a@ =~= b@);
        }
    }
    r
}

} // verus!

verus! {

/// The digit character for `d` (below sixteen), lowercase.
pub open spec fn digit_char(d: int) -> char {
    seq!['0', '1', '2', '3', '4', '5', '6', '7', '8', '9', 'a', 'b', 'c', 'd', 'e', 'f'][d]
}

/// `n` in decimal, without leading zeros.
pub open spec fn decimal_text(n: nat) -> Seq<char>
    decreases n,
{
    if n < 10 {
        seq![digit_char(n as int)]
    } else {
        decimal_text(n / 10).push(digit_char((n % 10) as int))
    }
}

/// `n` in lowercase hexadecimal, without leading zeros.
pub open spec fn hex_text(n: nat) -> Seq<char>
    decreases n,
{
    if n < 16 {
        seq![digit_char(n as int)]
    } else {
        hex_text(n / 16).push(digit_char((n % 16) as int))
    }
}

/// The hexadecimal digits, in order.
const HEX_DIGITS: &'static str = "0123456789abcdef";

/// Appends the digit character for `d` (below sixteen).
pub(crate) fn append_digit(s: &mut String, d: u64)
    requires
        d < 16,
    ensures
        final(s)@ == old(s)@.push(digit_char(d as int)),
{
    proof {
        reveal_strlit("0123456789abcdef");
    }
    s.append(HEX_DIGITS.substring_char(d as usize, d as usize + 1));
    assert(final(s)@ =~= old(s)@.push(digit_char(d as int))) by {
        assert(s@ =~= old(s)@ + "0123456789abcdef"@.subrange(d as int, d + 1));
    }
}

/// Appends `n` in decimal.
pub(crate) fn append_decimal(s: &mut String, n: u64)
    ensures
        final(s)@ == old(s)@ + decimal_text(n as nat),
    decreases n,
{
    if n >= 10 {
        append_decimal(s, n / 10);
    }
    append_digit(s, n % 10);
    assert(final(s)@ =~= old(s)@ + decimal_text(n as nat));
}

/// Appends `n` in lowercase hexadecimal.
pub(crate) fn append_hex(s: &mut String, n: u64)
    ensures
        final(s)@ == old(s)@ + hex_text(n as nat),
    decreases n,
{
    if n >= 16 {
        append_hex(s, n / 16);
    }
    append_digit(s, n % 16);
    assert(final(s)@ =~= old(s)@ + hex_text(n as nat));
}

/// `n` in decimal.
pub(crate) fn decimal_u16(n: u16) -> (r: String)
    ensures
        r@ == decimal_text(n as nat),
{
    let mut s = String::new();
    append_decimal(&mut s, n as u64);
    assert(s@ =~= decimal_text(n as nat));
    s
}

/// `n` in decimal.
pub(crate) fn decimal_u32(n: u32) -> (r: String)
    ensures
        r@ == decimal_text(n as nat),
{
    let mut s = String::new();
    append_decimal(&mut s, n as u64);
    assert(s@ =~= decimal_text(n as nat));
    s
}

/// `n` in decimal.
pub(crate) fn decimal_usize(n: usize) -> (r: String)
    ensures
        r@ == decimal_text(n as nat),
{
    let mut s = String::new();
    append_decimal(&mut s, n as u64);
    assert(s@ =~= decimal_text(n as nat));
    s
}

/// `n` in lowercase hexadecimal.
pub(crate) fn hex_u16(n: u16) -> (r: String)
    ensures
        r@ == hex_text(n as nat),
{
    let mut s = String::new();
    append_hex(&mut s, n as u64);
    assert(s@ =~= hex_text(n as nat));
    s
}

} // verus!

verus! {

/// Whether two strings hold the same characters, compared by their bytes.
pub fn str_equal(a: &str, b: &str) -> (r: bool)
    ensures
        r == (a@ == b@),
{
    let r = bytes_equal(a.as_bytes(), b.as_bytes());
    proof {
        vstd::utf8::encode_utf8_decode_utf8(a@);
        vstd::utf8::encode_utf8_decode_utf8(b@);
    }
    r
}

} // verus!
