//! Lowercase hexadecimal text of a byte string, two digits per byte.

use vstd::prelude::*;

verus! {

/// The sixteen lowercase hexadecimal digits, in order of value.
pub open spec fn hex_digits() -> Seq<char> {
    seq!['0', '1', '2', '3', '4', '5', '6', '7', '8', '9', 'a', 'b', 'c', 'd', 'e', 'f']
}

/// The digit at position `i` of the text of `bytes`: the high half of byte
/// `i / 2` at even positions, its low half at odd ones.
pub open spec fn hex_char_at(bytes: Seq<u8>, i: int) -> char {
    if i % 2 == 0 {
        hex_digits()[bytes[i / 2] as int / 16]
    } else {
        hex_digits()[bytes[i / 2] as int % 16]
    }
}

/// The hexadecimal text of `bytes`.
pub open spec fn hex_chars(bytes: Seq<u8>) -> Seq<char> {
    Seq::new(2 * bytes.len(), |i: int| hex_char_at(bytes, i))
}

/// Calls `hex::encode`.
///
/// Trusted: the text holds two lowercase digits for each byte, high half
/// first, in the order of the bytes.
#[verifier::external_body]
pub(crate) fn hex_encode(bytes: &[u8]) -> (text: String)
    ensures
        text@ == hex_chars(bytes@),
{
    hex::encode(bytes)
}

/// The text is twice as long as the bytes.
pub proof fn lemma_hex_chars_len(bytes: Seq<u8>)
    ensures
        hex_chars(bytes).len() == 2 * bytes.len(),
{
}

/// Two digits of the table are equal only at equal positions.
proof fn lemma_hex_digits_distinct(a: int, b: int)
    requires
        0 <= a < 16,
        0 <= b < 16,
        hex_digits()[a] == hex_digits()[b],
    ensures
        a == b,
{
}

/// Different byte strings have different texts, so the bytes can be read
/// back from the text.
pub proof fn lemma_hex_chars_injective(a: Seq<u8>, b: Seq<u8>)
    requires
        hex_chars(a) == hex_chars(b),
    ensures
        a == b,
{
    assert(hex_chars(a).len() == 2 * a.len());
    assert(hex_chars(b).len() == 2 * b.len());
    assert forall|k: int| 0 <= k < a.len() implies a[k] == b[k] by {
        let hi_a = a[k] as int / 16;
        let hi_b = b[k] as int / 16;
        let lo_a = a[k] as int % 16;
        let lo_b = b[k] as int % 16;
        assert(hex_chars(a)[2 * k] == hex_char_at(a, 2 * k));
        assert(hex_chars(b)[2 * k] == hex_char_at(b, 2 * k));
        assert(hex_chars(a)[2 * k + 1] == hex_char_at(a, 2 * k + 1));
        assert(hex_chars(b)[2 * k + 1] == hex_char_at(b, 2 * k + 1));
        assert((2 * k) / 2 == k && (2 * k) % 2 == 0);
        assert((2 * k + 1) / 2 == k && (2 * k + 1) % 2 == 1);
        lemma_hex_digits_distinct(hi_a, hi_b);
        lemma_hex_digits_distinct(lo_a, lo_b);
        assert(a[k] as int == 16 * hi_a + lo_a);
        assert(b[k] as int == 16 * hi_b + lo_b);
    }
    assert(a =~= b);
}

} // verus!
