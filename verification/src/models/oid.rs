//! Record identifiers: twelve bytes, written as twenty-four hexadecimal digits.

use vstd::prelude::*;

verus! {

/// The value of a hexadecimal digit of either case, `None` for any other character.
pub open spec fn hex_digit_value(c: char) -> Option<int> {
    if '0' <= c <= '9' {
        Some(c as int - '0' as int)
    } else if 'a' <= c <= 'f' {
        Some(c as int - 'a' as int + 10)
    } else if 'A' <= c <= 'F' {
        Some(c as int - 'A' as int + 10)
    } else {
        None
    }
}

/// The lower-case hexadecimal digit for a value below sixteen.
pub open spec fn lower_hex_digit(v: int) -> char {
    if v < 10 {
        ('0' as int + v) as char
    } else {
        ('a' as int + v - 10) as char
    }
}

/// A text is the text of an identifier when it is twenty-four hexadecimal digits.
pub open spec fn is_object_id_text(s: Seq<char>) -> bool {
    &&& s.len() == 24
    &&& forall|i: int| 0 <= i < 24 ==> hex_digit_value(#[trigger] s[i]) is Some
}

/// The twelve bytes that the text of an identifier stands for: each pair of
/// digits gives one byte, high digit first.
pub open spec fn object_id_bytes(s: Seq<char>) -> Seq<u8> {
    Seq::new(
        12,
        |i: int|
            (16 * hex_digit_value(s[2 * i]).unwrap() + hex_digit_value(s[2 * i + 1]).unwrap()) as u8,
    )
}

/// The text of an identifier: two lower-case digits for each byte, high digit first.
pub open spec fn object_id_text(bytes: Seq<u8>) -> Seq<char> {
    Seq::new(
        24,
        |i: int|
            lower_hex_digit(
                if i % 2 == 0 {
                    bytes[i / 2] as int / 16
                } else {
                    bytes[i / 2] as int % 16
                },
            ),
    )
}

/// The identifier of a record in the store.
#[derive(Clone, Copy, Debug, PartialEq, Eq, PartialOrd, Ord, Hash)]
pub struct ObjectId {
    pub bytes: [u8; 12],
}

impl View for ObjectId {
    type V = Seq<u8>;

    open spec fn view(&self) -> Seq<u8> {
        self.bytes@
    }
}

/// Calls `ObjectId::parse_str` of bson and hands out the bytes of the
/// identifier it made. That function decodes the text with `hex::decode` and
/// accepts it when exactly twelve bytes come out: so the text must be
/// twenty-four hexadecimal digits, of either case, and each pair of digits
/// gives one byte, high digit first.
#[verifier::external_body]
fn parse_hex(s: &str) -> (r: Option<[u8; 12]>)
    ensures
        r is Some <==> is_object_id_text(s@),
        r matches Some(bytes) ==> bytes@ == object_id_bytes(s@),
{
    match mongodb::bson::oid::ObjectId::parse_str(s) {
        Ok(oid) => Some(oid.bytes()),
        Err(_) => None,
    }
}

/// Calls `ObjectId::to_hex` of bson on the identifier with the given bytes.
/// That function is `hex::encode` on the twelve bytes: two lower-case digits
/// for each byte, high digit first.
#[verifier::external_body]
fn hex_text(bytes: [u8; 12]) -> (r: String)
    ensures
        r@ == object_id_text(bytes@),
{
    mongodb::bson::oid::ObjectId::from_bytes(bytes).to_hex()
}

impl ObjectId {
    /// Reads an identifier from its text, if the text is one.
    pub fn parse_str(s: &str) -> (r: Option<ObjectId>)
        ensures
            r is Some <==> is_object_id_text(s@),
            r matches Some(id) ==> id@ == object_id_bytes(s@),
    {
        match parse_hex(s) {
            Some(bytes) => Some(ObjectId { bytes }),
            None => None,
        }
    }

    /// The text of the identifier.
    pub fn to_hex(&self) -> (r: String)
        ensures
            r@ == object_id_text(self@),
    {
        hex_text(self.bytes)
    }
}

/// The text of an identifier is read back as the same identifier.
pub proof fn lemma_text_reads_back(bytes: Seq<u8>)
    requires
        bytes.len() == 12,
    ensures
        is_object_id_text(object_id_text(bytes)),
        object_id_bytes(object_id_text(bytes)) == bytes,
{
    let s = object_id_text(bytes);
    assert forall|i: int| 0 <= i < 24 implies hex_digit_value(#[trigger] s[i]) is Some by {
        let b = bytes[i / 2] as int;
        assert(0 <= b / 16 < 16);
        assert(0 <= b % 16 < 16);
    }
    assert forall|k: int| 0 <= k < 12 implies object_id_bytes(s)[k] == bytes[k] by {
        let b = bytes[k] as int;
        assert((2 * k) / 2 == k && (2 * k) % 2 == 0);
        assert((2 * k + 1) / 2 == k && (2 * k + 1) % 2 == 1);
        assert(hex_digit_value(s[2 * k]) == Some(b / 16));
        assert(hex_digit_value(s[2 * k + 1]) == Some(b % 16));
        assert(16 * (b / 16) + b % 16 == b);
    }
    assert(object_id_bytes(s) =~= bytes);
}

} // verus!
