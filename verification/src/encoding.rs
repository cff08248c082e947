//! Fixed-width big-endian numbers and the byte layout that a transfer is
//! hashed in.
//!
//! A transfer is laid out as four fields in a row: sender and receiver, each
//! as the UTF-8 bytes of the address behind their eight-byte length, then
//! amount and fee as eight bytes each. The lengths in front make the layout
//! unambiguous: two different transfers never share it.

use vstd::prelude::*;
use vstd::utf8::*;

verus! {

/// Bytes that a 64-bit number takes.
pub const WORD_LEN: usize = 8;

/// The lowest `width` base-256 digits of `value`, most significant first.
pub open spec fn be_bytes(value: nat, width: nat) -> Seq<u8>
    decreases width,
{
    if width == 0 {
        Seq::empty()
    } else {
        be_bytes(value / 256, (width - 1) as nat).push((value % 256) as u8)
    }
}

/// What is left of `value` above its lowest `width` base-256 digits.
pub open spec fn above_digits(value: nat, width: nat) -> nat
    decreases width,
{
    if width == 0 {
        value
    } else {
        above_digits(value / 256, (width - 1) as nat)
    }
}

/// A text field: the UTF-8 bytes of `text` behind their count.
pub open spec fn text_field(text: Seq<char>) -> Seq<u8> {
    be_bytes(encode_utf8(text).len(), WORD_LEN as nat) + encode_utf8(text)
}

/// The layout of a transfer: sender, receiver, amount, fee.
pub open spec fn canonical_encoding(
    sender: Seq<char>,
    receiver: Seq<char>,
    amount: u64,
    fee: u64,
) -> Seq<u8> {
    text_field(sender) + text_field(receiver) + be_bytes(amount as nat, WORD_LEN as nat)
        + be_bytes(fee as nat, WORD_LEN as nat)
}

/// `be_bytes` gives exactly `width` bytes.
pub proof fn lemma_be_bytes_len(value: nat, width: nat)
    ensures
        be_bytes(value, width).len() == width,
    decreases width,
{
    if width > 0 {
        lemma_be_bytes_len(value / 256, (width - 1) as nat);
    }
}

/// Two numbers with the same digits and the same rest above them are equal.
pub proof fn lemma_be_bytes_injective(a: nat, b: nat, width: nat)
    requires
        be_bytes(a, width) == be_bytes(b, width),
        above_digits(a, width) == above_digits(b, width),
    ensures
        a == b,
    decreases width,
{
    if width > 0 {
        let shorter = (width - 1) as nat;
        let da = be_bytes(a / 256, shorter);
        let db = be_bytes(b / 256, shorter);
        assert(be_bytes(a, width) == da.push((a % 256) as u8));
        assert(be_bytes(b, width) == db.push((b % 256) as u8));
        assert(da.push((a % 256) as u8).last() == (a % 256) as u8);
        assert(db.push((b % 256) as u8).last() == (b % 256) as u8);
        assert(da.push((a % 256) as u8).drop_last() =~= da);
        assert(db.push((b % 256) as u8).drop_last() =~= db);
        assert(da == db);
        lemma_be_bytes_injective(a / 256, b / 256, shorter);
        assert(a % 256 == b % 256);
    }
}

/// A 64-bit number has nothing above its eight digits.
pub proof fn lemma_word_has_no_rest(value: u64)
    ensures
        above_digits(value as nat, WORD_LEN as nat) == 0,
{
    reveal_with_fuel(above_digits, 9);
}

/// Different 64-bit numbers have different eight-byte encodings.
pub proof fn lemma_word_injective(a: u64, b: u64)
    requires
        be_bytes(a as nat, WORD_LEN as nat) == be_bytes(b as nat, WORD_LEN as nat),
    ensures
        a == b,
{
    lemma_word_has_no_rest(a);
    lemma_word_has_no_rest(b);
    lemma_be_bytes_injective(a as nat, b as nat, WORD_LEN as nat);
}

/// The eight bytes of `value`, most significant first.
pub fn u64_be_bytes(value: u64) -> (bytes: Vec<u8>)
    ensures
        bytes@ == be_bytes(value as nat, WORD_LEN as nat),
{
    let mut bytes: Vec<u8> = Vec::new();
    let mut rest: u64 = value;
    let mut left: usize = WORD_LEN;
    while left > 0
        invariant
            left <= WORD_LEN,
            be_bytes(value as nat, WORD_LEN as nat) == be_bytes(rest as nat, left as nat) + bytes@,
        decreases left,
    {
        let digit: u8 = (rest % 256) as u8;
        proof {
            let shorter = be_bytes((rest / 256) as nat, (left - 1) as nat);
            assert(be_bytes(rest as nat, left as nat) == shorter.push(digit));
            assert(shorter.push(digit) + bytes@ =~= shorter + bytes@.insert(0, digit));
        }
        bytes.insert(0, digit);
        rest = rest / 256;
        left = left - 1;
    }
    assert(be_bytes(rest as nat, 0) + bytes@ =~= bytes@);
    bytes
}

/// The field of `text`: its UTF-8 bytes behind their count.
pub fn text_field_bytes(text: &str) -> (bytes: Vec<u8>)
    ensures
        bytes@ == text_field(text@),
{
    let raw = text.as_bytes();
    let mut bytes = u64_be_bytes(raw.len() as u64);
    bytes.extend_from_slice(raw);
    bytes
}

/// The layout of a transfer of `amount` with `fee` from `sender` to
/// `receiver`.
pub fn encode_transfer(sender: &str, receiver: &str, amount: u64, fee: u64) -> (bytes: Vec<u8>)
    ensures
        bytes@ == canonical_encoding(sender@, receiver@, amount, fee),
{
    let mut bytes = text_field_bytes(sender);
    let mut second = text_field_bytes(receiver);
    let mut third = u64_be_bytes(amount);
    let mut fourth = u64_be_bytes(fee);
    bytes.append(&mut second);
    bytes.append(&mut third);
    bytes.append(&mut fourth);
    bytes
}

/// Two rows of bytes that agree, with first parts of one length, agree part
/// by part.
proof fn lemma_parts_agree(x: Seq<u8>, p: Seq<u8>, y: Seq<u8>, q: Seq<u8>)
    requires
        x + p == y + q,
        x.len() == y.len(),
    ensures
        x == y,
        p == q,
{
    assert(x =~= (x + p).subrange(0, x.len() as int));
    assert(y =~= (y + q).subrange(0, y.len() as int));
    assert(p =~= (x + p).subrange(x.len() as int, (x + p).len() as int));
    assert(q =~= (y + q).subrange(y.len() as int, (y + q).len() as int));
}

/// Two text fields in front of equal rows are fields of the same text, and
/// what follows them is equal too.
proof fn lemma_text_field_prefix(a: Seq<char>, rest_a: Seq<u8>, b: Seq<char>, rest_b: Seq<u8>)
    requires
        text_field(a) + rest_a == text_field(b) + rest_b,
        encode_utf8(a).len() <= u64::MAX,
        encode_utf8(b).len() <= u64::MAX,
    ensures
        a == b,
        rest_a == rest_b,
{
    let wide = WORD_LEN as nat;
    let count_a = encode_utf8(a).len();
    let count_b = encode_utf8(b).len();
    lemma_be_bytes_len(count_a, wide);
    lemma_be_bytes_len(count_b, wide);
    assert(text_field(a) + rest_a =~= be_bytes(count_a, wide) + (encode_utf8(a) + rest_a));
    assert(text_field(b) + rest_b =~= be_bytes(count_b, wide) + (encode_utf8(b) + rest_b));
    lemma_parts_agree(
        be_bytes(count_a, wide),
        encode_utf8(a) + rest_a,
        be_bytes(count_b, wide),
        encode_utf8(b) + rest_b,
    );
    lemma_word_injective(count_a as u64, count_b as u64);
    lemma_parts_agree(encode_utf8(a), rest_a, encode_utf8(b), rest_b);
    encode_utf8_decode_utf8(a);
    encode_utf8_decode_utf8(b);
}

/// The layout determines the transfer: two transfers with the same bytes
/// have the same sender, receiver, amount and fee. Addresses are texts that
/// fit in memory, so their byte counts fit in 64 bits.
pub proof fn lemma_canonical_encoding_injective(
    sender_a: Seq<char>,
    receiver_a: Seq<char>,
    amount_a: u64,
    fee_a: u64,
    sender_b: Seq<char>,
    receiver_b: Seq<char>,
    amount_b: u64,
    fee_b: u64,
)
    requires
        canonical_encoding(sender_a, receiver_a, amount_a, fee_a) == canonical_encoding(
            sender_b,
            receiver_b,
            amount_b,
            fee_b,
        ),
        encode_utf8(sender_a).len() <= u64::MAX,
        encode_utf8(receiver_a).len() <= u64::MAX,
        encode_utf8(sender_b).len() <= u64::MAX,
        encode_utf8(receiver_b).len() <= u64::MAX,
    ensures
        sender_a == sender_b,
        receiver_a == receiver_b,
        amount_a == amount_b,
        fee_a == fee_b,
{
    let wide = WORD_LEN as nat;
    let numbers_a = be_bytes(amount_a as nat, wide) + be_bytes(fee_a as nat, wide);
    let numbers_b = be_bytes(amount_b as nat, wide) + be_bytes(fee_b as nat, wide);
    let tail_a = text_field(receiver_a) + numbers_a;
    let tail_b = text_field(receiver_b) + numbers_b;
    assert(canonical_encoding(sender_a, receiver_a, amount_a, fee_a) =~= text_field(sender_a)
        + tail_a);
    assert(canonical_encoding(sender_b, receiver_b, amount_b, fee_b) =~= text_field(sender_b)
        + tail_b);
    lemma_text_field_prefix(sender_a, tail_a, sender_b, tail_b);
    lemma_text_field_prefix(receiver_a, numbers_a, receiver_b, numbers_b);
    lemma_be_bytes_len(amount_a as nat, wide);
    lemma_be_bytes_len(amount_b as nat, wide);
    lemma_parts_agree(
        be_bytes(amount_a as nat, wide),
        be_bytes(fee_a as nat, wide),
        be_bytes(amount_b as nat, wide),
        be_bytes(fee_b as nat, wide),
    );
    lemma_word_injective(amount_a, amount_b);
    lemma_word_injective(fee_a, fee_b);
}

} // verus!
