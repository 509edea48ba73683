//! The lowercase hexadecimal notation for byte strings.
//!
//! The notation is defined here as a mathematical function on sequences, and
//! what callers may rely on is proved of that function. The text itself is
//! produced by the `hex` crate.

use vstd::prelude::*;

verus! {

/// The sixteen lowercase hexadecimal digits, in order of their value.
pub open spec fn lower_hex_digits() -> Seq<char> {
    seq!['0', '1', '2', '3', '4', '5', '6', '7', '8', '9', 'a', 'b', 'c', 'd', 'e', 'f']
}

/// Whether `c` is one of the characters `0123456789abcdef`.
pub open spec fn is_lower_hex_digit(c: char) -> bool {
    lower_hex_digits().contains(c)
}

/// The digit that stands for `value`, which is meant to be below sixteen.
pub open spec fn lower_hex_digit(value: u8) -> char
    recommends
        value < 16,
{
    lower_hex_digits()[value as int]
}

/// The two digits of one byte: first that of its high four bits, `byte / 16`,
/// then that of its low four bits, `byte % 16`.
pub open spec fn hex_pair(byte: u8) -> Seq<char> {
    seq![lower_hex_digit(byte / 16), lower_hex_digit(byte % 16)]
}

/// The character at position `i` of the notation of `bytes`: positions `2k` and
/// `2k + 1` belong to the byte at index `k`.
pub open spec fn hex_char_at(bytes: Seq<u8>, i: int) -> char
    recommends
        0 <= i < 2 * bytes.len(),
{
    hex_pair(bytes[i / 2])[i % 2]
}

/// The lowercase hexadecimal notation of `bytes`: two digits for each byte, in
/// the order of the bytes, with nothing before, between or after them.
pub open spec fn hex_encoding(bytes: Seq<u8>) -> Seq<char> {
    Seq::new((2 * bytes.len()) as nat, |i: int| hex_char_at(bytes, i))
}

/// Calls `hex::encode` on a byte slice.
///
/// Trusted, not proved: the string that comes back is the lowercase
/// hexadecimal notation of the slice. `hex::encode` walks the bytes in order
/// and emits, for each, the digit of its high four bits and then the digit of
/// its low four bits, taken from the table `0123456789abcdef`; it cannot fail.
#[verifier::external_body]
pub(crate) fn encode_lower(bytes: &[u8]) -> (text: String)
    ensures
        text@ == hex_encoding(bytes@),
{
    hex::encode(bytes)
}

/// Distinct values below sixteen have distinct digits.
pub proof fn lemma_digit_injective(a: u8, b: u8)
    requires
        a < 16,
        b < 16,
        lower_hex_digit(a) == lower_hex_digit(b),
    ensures
        a == b,
{
}

/// Distinct bytes have distinct digit pairs.
pub proof fn lemma_pair_injective(a: u8, b: u8)
    requires
        hex_pair(a) == hex_pair(b),
    ensures
        a == b,
{
    lemma_digit_injective(a / 16, b / 16);
    lemma_digit_injective(a % 16, b % 16);
}

/// The notation is twice as long as the bytes, and every character of it is
/// one of `0123456789abcdef`.
pub proof fn lemma_hex_encoding_shape(bytes: Seq<u8>)
    ensures
        hex_encoding(bytes).len() == 2 * bytes.len(),
        forall|i: int|
            0 <= i < hex_encoding(bytes).len() ==> is_lower_hex_digit(
                #[trigger] hex_encoding(bytes)[i],
            ),
{
}

/// The notation keeps the bytes in their order: the two characters at
/// positions `2k` and `2k + 1` are the digits of the byte at index `k`, high
/// four bits first.
pub proof fn lemma_hex_encoding_keeps_order(bytes: Seq<u8>, k: int)
    requires
        0 <= k < bytes.len(),
    ensures
        hex_encoding(bytes).subrange(2 * k, 2 * k + 2) == hex_pair(bytes[k]),
        hex_encoding(bytes)[2 * k] == lower_hex_digit(bytes[k] / 16),
        hex_encoding(bytes)[2 * k + 1] == lower_hex_digit(bytes[k] % 16),
{
    assert(hex_encoding(bytes).subrange(2 * k, 2 * k + 2) =~= hex_pair(bytes[k]));
}

/// The notation of no bytes is the empty text.
pub proof fn lemma_hex_encoding_empty()
    ensures
        hex_encoding(Seq::<u8>::empty()) == Seq::<char>::empty(),
{
    assert(hex_encoding(Seq::<u8>::empty()) =~= Seq::<char>::empty());
}

/// The notation of two byte strings joined is their notations joined.
pub proof fn lemma_hex_encoding_concat(front: Seq<u8>, back: Seq<u8>)
    ensures
        hex_encoding(front + back) == hex_encoding(front) + hex_encoding(back),
{
    assert(hex_encoding(front + back) =~= hex_encoding(front) + hex_encoding(back));
}

/// Byte strings with the same notation are the same byte string.
pub proof fn lemma_hex_encoding_injective(a: Seq<u8>, b: Seq<u8>)
    requires
        hex_encoding(a) == hex_encoding(b),
    ensures
        a == b,
{
    assert(hex_encoding(a).len() == 2 * a.len());
    assert(hex_encoding(b).len() == 2 * b.len());
    assert forall|k: int| 0 <= k < a.len() implies a[k] == b[k] by {
        lemma_hex_encoding_keeps_order(a, k);
        lemma_hex_encoding_keeps_order(b, k);
        lemma_pair_injective(a[k], b[k]);
    }
    assert(a =~= b);
}

} // verus!
