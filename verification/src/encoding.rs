//! Hexadecimal texts of bytes, by the `hex` crate.
use vstd::prelude::*;

verus! {

/// The lowercase hexadecimal digit of a value below 16.
pub open spec fn hex_digit(v: nat) -> char {
    if v < 10 {
        (v + 48) as char
    } else {
        (v - 10 + 97) as char
    }
}

/// The lowercase hexadecimal text of bytes: two digits per byte, high half first.
pub open spec fn hex_text(bytes: Seq<u8>) -> Seq<char>
    decreases bytes.len(),
{
    if bytes.len() == 0 {
        Seq::empty()
    } else {
        hex_text(bytes.drop_last()) + seq![
            hex_digit((bytes.last() / 16) as nat),
            hex_digit((bytes.last() % 16) as nat),
        ]
    }
}

/// Whether a character is a hexadecimal digit, of either case.
pub open spec fn is_hex_char(c: char) -> bool {
    ('0' <= c && c <= '9') || ('a' <= c && c <= 'f') || ('A' <= c && c <= 'F')
}

/// The value of a hexadecimal digit.
pub open spec fn hex_value(c: char) -> nat {
    if '0' <= c && c <= '9' {
        (c as nat - 48) as nat
    } else if 'a' <= c && c <= 'f' {
        (c as nat - 97 + 10) as nat
    } else {
        (c as nat - 65 + 10) as nat
    }
}

/// Whether `hex::decode` accepts a text: an even number of hexadecimal digits.
pub open spec fn is_hex(text: Seq<char>) -> bool {
    text.len() % 2 == 0 && forall|i: int| 0 <= i < text.len() ==> is_hex_char(#[trigger] text[i])
}

/// The bytes of a hexadecimal text: each pair of digits is one byte, high half first.
pub open spec fn hex_bytes(text: Seq<char>) -> Seq<u8> {
    Seq::new(
        text.len() / 2,
        |i: int| (hex_value(text[2 * i]) * 16 + hex_value(text[2 * i + 1])) as u8,
    )
}

/// Calls `hex::encode`, which writes each byte as two lowercase hexadecimal digits, the
/// high half first.
#[verifier::external_body]
pub(crate) fn hex_encode(bytes: &[u8]) -> (res: String)
    ensures
        res@ == hex_text(bytes@),
{
    hex::encode(bytes)
}

/// Calls `hex::decode` on the bytes of a text. It accepts an even number of hexadecimal
/// digits of either case and gives one byte per pair; the contract claims that, and only
/// that a refused text is refused (not which of `hex`'s errors it gets).
#[verifier::external_body]
pub(crate) fn hex_decode(text: &str) -> (res: Option<Vec<u8>>)
    ensures
        res is Some <==> is_hex(text@),
        res matches Some(b) ==> b@ == hex_bytes(text@),
{
    hex::decode(text.as_bytes()).ok()
}

proof fn lemma_hex_text_shape(bytes: Seq<u8>)
    ensures
        hex_text(bytes).len() == 2 * bytes.len(),
        forall|i: int| 0 <= i < bytes.len() ==> {
            &&& #[trigger] hex_text(bytes)[2 * i] == hex_digit((bytes[i] / 16) as nat)
            &&& hex_text(bytes)[2 * i + 1] == hex_digit((bytes[i] % 16) as nat)
        },
    decreases bytes.len(),
{
    if bytes.len() > 0 {
        let t = bytes.drop_last();
        lemma_hex_text_shape(t);
        assert forall|i: int| 0 <= i < bytes.len() implies {
            &&& #[trigger] hex_text(bytes)[2 * i] == hex_digit((bytes[i] / 16) as nat)
            &&& hex_text(bytes)[2 * i + 1] == hex_digit((bytes[i] % 16) as nat)
        } by {
            if i < t.len() {
                assert(hex_text(t)[2 * i] == hex_digit((t[i] / 16) as nat));
                assert(bytes[i] == t[i]);
            }
        }
    }
}

/// Decoding the hexadecimal text of bytes gives the bytes back.
pub proof fn law_hex_round_trip(bytes: Seq<u8>)
    ensures
        is_hex(hex_text(bytes)),
        hex_bytes(hex_text(bytes)) == bytes,
{
    lemma_hex_text_shape(bytes);
    let t = hex_text(bytes);
    assert forall|k: int| 0 <= k < t.len() implies is_hex_char(#[trigger] t[k]) by {
        let i = k / 2;
        assert(0 <= i < bytes.len());
        if k % 2 == 0 {
            assert(k == 2 * i);
            assert(t[2 * i] == hex_digit((bytes[i] / 16) as nat));
        } else {
            assert(k == 2 * i + 1);
            assert(t[2 * i] == hex_digit((bytes[i] / 16) as nat));
        }
    }
    assert forall|i: int| 0 <= i < bytes.len() implies #[trigger] hex_bytes(t)[i] == bytes[i] by {
        assert(t[2 * i] == hex_digit((bytes[i] / 16) as nat));
        let hi = (bytes[i] / 16) as nat;
        let lo = (bytes[i] % 16) as nat;
        assert(hex_value(hex_digit(hi)) == hi);
        assert(hex_value(hex_digit(lo)) == lo);
    }
    assert(hex_bytes(t) =~= bytes);
}

} // verus!
