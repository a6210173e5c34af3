//! Hexadecimal text, through the `hex` crate.
use vstd::prelude::*;

verus! {

/// The lower-case hex digit of a value below 16.
pub open spec fn hex_digit(v: int) -> char {
    if v < 10 {
        (('0' as int) + v) as char
    } else {
        (('a' as int) + v - 10) as char
    }
}

/// Lower-case hex text of `bytes`, two digits per byte, high nibble first.
pub open spec fn hex_lower(bytes: Seq<u8>) -> Seq<char>
    decreases bytes.len(),
{
    if bytes.len() == 0 {
        Seq::empty()
    } else {
        hex_lower(bytes.drop_last()) + seq![
            hex_digit(bytes.last() as int / 16),
            hex_digit(bytes.last() as int % 16),
        ]
    }
}

/// The value of a hex digit in either case.
pub open spec fn hex_value(c: char) -> Option<int> {
    if '0' <= c && c <= '9' {
        Some(c as int - '0' as int)
    } else if 'a' <= c && c <= 'f' {
        Some(c as int - 'a' as int + 10)
    } else if 'A' <= c && c <= 'F' {
        Some(c as int - 'A' as int + 10)
    } else {
        None
    }
}

/// Text that `hex::decode` accepts: an even number of hex digits.
pub open spec fn hex_decodable(s: Seq<char>) -> bool {
    &&& s.len() % 2 == 0
    &&& forall|i: int| 0 <= i < s.len() ==> (#[trigger] hex_value(s[i])) is Some
}

/// The bytes that decodable hex text stands for.
pub open spec fn hex_bytes(s: Seq<char>) -> Seq<u8> {
    Seq::new(
        (s.len() / 2) as nat,
        |i: int| (hex_value(s[2 * i])->0 * 16 + hex_value(s[2 * i + 1])->0) as u8,
    )
}

/// `hex::encode`: the lower-case hex text of the bytes.
#[verifier::external_body]
pub fn hex_encode(bytes: &[u8]) -> (res: String)
    ensures
        res@ == hex_lower(bytes@),
{
    hex::encode(bytes)
}

/// `hex::decode` applied to the bytes of `s`: `Some` exactly for an even
/// number of hex digits (either case), holding the bytes they stand for.
#[verifier::external_body]
pub fn hex_decode(s: &str) -> (res: Option<Vec<u8>>)
    ensures
        res is Some <==> hex_decodable(s@),
        res matches Some(v) ==> v@ == hex_bytes(s@),
{
    hex::decode(s).ok()
}

pub proof fn lemma_hex_lower_len(bytes: Seq<u8>)
    ensures
        hex_lower(bytes).len() == 2 * bytes.len(),
    decreases bytes.len(),
{
    if bytes.len() > 0 {
        lemma_hex_lower_len(bytes.drop_last());
    }
}

/// Each pair of characters of `hex_lower(bytes)` holds one byte.
pub proof fn lemma_hex_lower_index(bytes: Seq<u8>, i: int)
    requires
        0 <= i < bytes.len(),
    ensures
        hex_lower(bytes).len() == 2 * bytes.len(),
        hex_lower(bytes)[2 * i] == hex_digit(bytes[i] as int / 16),
        hex_lower(bytes)[2 * i + 1] == hex_digit(bytes[i] as int % 16),
    decreases bytes.len(),
{
    lemma_hex_lower_len(bytes);
    if i < bytes.len() - 1 {
        lemma_hex_lower_index(bytes.drop_last(), i);
    } else {
        lemma_hex_lower_len(bytes.drop_last());
    }
}

/// Every character of `hex_lower(bytes)` is a lower-case hex digit.
pub proof fn lemma_hex_lower_digits(bytes: Seq<u8>)
    ensures
        forall|j: int| 0 <= j < hex_lower(bytes).len() ==> {
            let c = #[trigger] hex_lower(bytes)[j];
            ('0' <= c && c <= '9') || ('a' <= c && c <= 'f')
        },
{
    lemma_hex_lower_len(bytes);
    assert forall|j: int| 0 <= j < hex_lower(bytes).len() implies {
        let c = #[trigger] hex_lower(bytes)[j];
        ('0' <= c && c <= '9') || ('a' <= c && c <= 'f')
    } by {
        lemma_hex_lower_index(bytes, j / 2);
        assert(j == 2 * (j / 2) || j == 2 * (j / 2) + 1);
    }
}

/// Decoding the hex text of some bytes gives the bytes back.
pub proof fn lemma_hex_roundtrip(bytes: Seq<u8>)
    ensures
        hex_decodable(hex_lower(bytes)),
        hex_bytes(hex_lower(bytes)) == bytes,
{
    let h = hex_lower(bytes);
    lemma_hex_lower_len(bytes);
    assert forall|i: int| 0 <= i < h.len() implies (#[trigger] hex_value(h[i])) is Some by {
        lemma_hex_lower_index(bytes, i / 2);
        assert(i == 2 * (i / 2) || i == 2 * (i / 2) + 1);
    }
    assert forall|i: int| 0 <= i < bytes.len() implies #[trigger] hex_bytes(h)[i] == bytes[i] by {
        lemma_hex_lower_index(bytes, i);
    }
    assert(hex_bytes(h) =~= bytes);
}

} // verus!
