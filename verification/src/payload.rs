//! The text of a flush request: one JSON object whose keys are the feature
//! identifiers, written as strings, and whose values are their counts.

use std::collections::HashMap;
use vstd::prelude::*;

verus! {

/// The character that stands for a digit below ten.
pub open spec fn digit_char(d: nat) -> char {
    seq!['0', '1', '2', '3', '4', '5', '6', '7', '8', '9'][d as int]
}

/// A number in decimal, without sign or leading zeros.
pub open spec fn decimal_text(n: nat) -> Seq<char>
    decreases n,
{
    if n < 10 {
        seq![digit_char(n)]
    } else {
        decimal_text(n / 10).push(digit_char(n % 10))
    }
}

/// One member of the object: the identifier in quotes, a colon, the count.
pub open spec fn entry_text(id: u32, count: u32) -> Seq<char> {
    seq!['"'] + decimal_text(id as nat) + seq!['"', ':'] + decimal_text(count as nat)
}

/// The members for the identifiers in `order`, separated by commas.
pub open spec fn entries_text(order: Seq<u32>, counts: Map<u32, u32>) -> Seq<char>
    decreases order.len(),
{
    if order.len() == 0 {
        Seq::empty()
    } else if order.len() == 1 {
        entry_text(order[0], counts[order[0]])
    } else {
        entries_text(order.drop_last(), counts) + seq![','] + entry_text(
            order.last(),
            counts[order.last()],
        )
    }
}

/// The whole object, with its members in the given order.
pub open spec fn object_text(order: Seq<u32>, counts: Map<u32, u32>) -> Seq<char> {
    seq!['{'] + entries_text(order, counts) + seq!['}']
}

/// `order` names every identifier of `counts` exactly once.
pub open spec fn lists_keys(order: Seq<u32>, counts: Map<u32, u32>) -> bool {
    order.no_duplicates() && order.to_set() == counts.dom()
}

/// `text` is the compact JSON object for `counts`, its members in some order.
pub open spec fn is_body_of(text: Seq<char>, counts: Map<u32, u32>) -> bool {
    exists|order: Seq<u32>| #[trigger] lists_keys(order, counts) && text == object_text(order, counts)
}

/// `serde_json::Error`, the reason an encoding failed; opaque.
#[verifier::external_type_specification]
#[verifier::external_body]
pub struct ExJsonError(serde_json::Error);

/// Calls `serde_json::to_string` on the map. Trusted: the call succeeds, since
/// integer keys are written as strings and the encoder fails only where its
/// writer does, which here is a vector in memory. The text is `{`, one member
/// `"id":count` per entry with both numbers in decimal, commas between the
/// members, and `}`. The members come in the order in which the map is walked,
/// which is not fixed.
#[verifier::external_body]
pub(crate) fn to_json(counts: &HashMap<u32, u32>) -> (encoded: Result<String, serde_json::Error>)
    ensures
        encoded is Ok,
        encoded matches Ok(text) ==> is_body_of(text@, counts@),
{
    serde_json::to_string(counts)
}

/// What a flush has to transmit.
#[derive(Debug, PartialEq, Eq)]
pub enum Payload {
    /// There are no counts: nothing is sent.
    Nothing,
    /// The request body.
    Body(String),
    /// An attempt to encode the counts failed: nothing can be sent.
    Unencodable,
}

/// What to transmit after an attempt to encode counts that are not empty: the
/// text where the attempt succeeded; a failure is named, so that it ends this
/// flush and nothing else.
pub fn payload_from(encoded: Result<String, serde_json::Error>) -> (payload: Payload)
    ensures
        match encoded {
            Ok(text) => payload == Payload::Body(text),
            Err(_) => payload is Unencodable,
        },
{
    match encoded {
        Ok(text) => Payload::Body(text),
        Err(_) => Payload::Unencodable,
    }
}

} // verus!
