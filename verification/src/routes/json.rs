//! The pieces that the JSON text of a response is put together from.

use crate::error::{encoded, EncodeError};
use vstd::prelude::*;
use vstd::string::*;

verus! {

/// The error of serde_json. Nothing is known of what one holds.
#[verifier::external_type_specification]
#[verifier::external_body]
pub struct ExJsonError(serde_json::Error);

/// The JSON string literal that serde_json writes for a text, quotes and
/// escapes included.
pub uninterp spec fn json_string(s: Seq<char>) -> Seq<char>;

/// Calls `serde_json::to_string` on a text. It writes into memory, where no
/// write fails, and a text has nothing in it that the encoder refuses: so it
/// succeeds, and what it writes depends on the text alone.
#[verifier::external_body]
fn to_json_string(s: &str) -> (r: Result<String, serde_json::Error>)
    ensures
        r is Ok,
        r matches Ok(text) ==> text@ == json_string(s@),
{
    serde_json::to_string(s)
}

/// Writes a text as a JSON string literal.
pub fn encode_string(s: &str) -> (r: String)
    ensures
        r@ == json_string(s@),
{
    match to_json_string(s) {
        Ok(text) => text,
        // Not reached: the encoder does not fail on a text.
        Err(_) => String::new(),
    }
}

/// The character of a decimal digit.
pub open spec fn digit_char(d: int) -> char {
    ('0' as int + d) as char
}

/// A natural number in decimal digits, without leading zeros.
pub open spec fn decimal_nat(n: nat) -> Seq<char>
    decreases n,
{
    if n < 10 {
        seq![digit_char(n as int)]
    } else {
        decimal_nat(n / 10).push(digit_char((n % 10) as int))
    }
}

/// An integer in decimal digits, with a minus sign before a negative one.
pub open spec fn decimal(n: int) -> Seq<char> {
    if n < 0 {
        seq!['-'] + decimal_nat((-n) as nat)
    } else {
        decimal_nat(n as nat)
    }
}

/// Adds the decimal digits of a number to a text.
pub fn push_decimal(out: &mut String, n: u64)
    ensures
        final(out)@ == old(out)@ + decimal_nat(n as nat),
    decreases n,
{
    let ghost before = out@;
    if n >= 10 {
        push_decimal(out, n / 10);
    }
    let d: u8 = (n % 10) as u8;
    out.push(('0' as u8 + d) as char);
    proof {
        if n >= 10 {
            assert(out@ =~= before + decimal_nat(n as nat / 10).push(digit_char((n % 10) as int)));
        } else {
            assert(out@ =~= before + seq![digit_char(n as int)]);
        }
    }
}

/// Adds an integer in decimal to a text.
pub fn push_integer(out: &mut String, n: isize)
    ensures
        final(out)@ == old(out)@ + decimal(n as int),
{
    let ghost before = out@;
    let wide: i128 = n as i128;
    if wide < 0 {
        out.push('-');
        push_decimal(out, (-wide) as u64);
        assert(out@ =~= before + (seq!['-'] + decimal_nat((-n) as nat)));
    } else {
        push_decimal(out, wide as u64);
    }
}

/// The texts of a sequence of strings.
pub open spec fn texts(items: Seq<String>) -> Seq<Seq<char>> {
    items.map_values(|item: String| item@)
}

/// The texts one after another, with a comma between two of them.
pub open spec fn joined(items: Seq<Seq<char>>) -> Seq<char>
    decreases items.len(),
{
    if items.len() == 0 {
        Seq::empty()
    } else if items.len() == 1 {
        items[0]
    } else {
        joined(items.drop_last()) + ","@ + items.last()
    }
}

/// The JSON array of items that are JSON texts already: in square brackets,
/// with a comma between two of them and no white space.
pub open spec fn array_text(items: Seq<Seq<char>>) -> Seq<char> {
    "["@ + joined(items) + "]"@
}

/// The array without items is the text `[]`.
pub proof fn lemma_empty_array()
    ensures
        array_text(Seq::empty()) == "[]"@,
{
    reveal_strlit("[");
    reveal_strlit("]");
    reveal_strlit("[]");
    assert("["@ + Seq::<char>::empty() + "]"@ =~= "[]"@);
}

/// Writes the JSON array of items that are JSON texts already.
pub fn json_array(items: &Vec<String>) -> (r: String)
    ensures
        r@ == array_text(texts(items@)),
{
    let mut out = String::from_str("[");
    let mut i: usize = 0;
    proof {
        assert(texts(items@).take(0) =~= Seq::<Seq<char>>::empty());
        assert(out@ =~= "["@ + joined(texts(items@).take(0)));
    }
    while i < items.len()
        invariant
            i <= items.len(),
            out@ == "["@ + joined(texts(items@).take(i as int)),
        decreases items.len() - i,
    {
        let ghost before = texts(items@).take(i as int);
        let ghost after = texts(items@).take(i + 1);
        proof {
            assert(after.drop_last() =~= before);
            assert(after.last() == items@[i as int]@);
        }
        if i > 0 {
            out.append(",");
        }
        out.append(items[i].as_str());
        proof {
            if i == 0 {
                assert(out@ =~= "["@ + joined(after));
            } else {
                assert(out@ =~= "["@ + (joined(before) + ","@ + after.last()));
            }
        }
        i += 1;
    }
    proof {
        assert(texts(items@).take(i as int) =~= texts(items@));
    }
    out.append("]");
    out
}

/// The JSON object that the store's answer to a deletion is echoed as. The
/// count is written as a signed 64-bit number: a larger one cannot be written.
pub open spec fn delete_result_json(deleted_count: u64) -> Option<Seq<char>> {
    if deleted_count <= i64::MAX {
        Some("{\"deletedCount\":"@ + decimal_nat(deleted_count as nat) + "}"@)
    } else {
        None
    }
}

/// Calls `serde_json::to_string` on a `DeleteResult` of mongodb that holds
/// the given count. That type writes itself as an object with the one field
/// `deletedCount`, the count as a signed 64-bit number, and fails on a count
/// that is no such number; serde_json writes the object without white space
/// and the number in decimal.
#[verifier::external_body]
fn to_json_delete_result(deleted_count: u64) -> (r: Result<String, serde_json::Error>)
    ensures
        r is Ok <==> delete_result_json(deleted_count) is Some,
        r matches Ok(text) ==> delete_result_json(deleted_count) == Some(text@),
{
    let mut result = mongodb::results::DeleteResult::default();
    result.deleted_count = deleted_count;
    serde_json::to_string(&result)
}

/// Writes the store's answer to a deletion as JSON.
pub fn encode_delete_result(deleted_count: u64) -> (r: Result<String, EncodeError>)
    ensures
        encoded(r) == delete_result_json(deleted_count),
{
    match to_json_delete_result(deleted_count) {
        Ok(text) => Ok(text),
        Err(_) => Err(EncodeError {  }),
    }
}

} // verus!
