//! The body of the cancel request and its empty answer.

use vstd::prelude::*;
use crate::json::{find_string_field, object_fields, object_text, parse_object, push_string, render_object, string_field, string_text};

verus! {

/// The empty answer to a cancel request that the service accepted.
#[derive(Clone, Debug, PartialEq, Eq)]
pub struct CancelResponse {}

/// The request body of the cancel endpoint.
#[derive(Clone, Debug, PartialEq, Eq)]
pub struct CancelPayload {
    pub order_ref: String,
}

/// The fields of a body that names one order.
pub open spec fn order_ref_fields(order_ref: Seq<char>) -> Seq<(Seq<char>, Seq<char>)> {
    seq![("orderRef"@, string_text(order_ref))]
}

/// The order reference written in `text`.
pub open spec fn order_ref_model(text: Seq<char>) -> Option<Seq<char>> {
    match object_fields(text) {
        Some(f) => string_field(f, "orderRef"@),
        None => None,
    }
}

/// Writes the body that names one order; its field reads back as `order_ref`.
pub fn order_ref_json(order_ref: &String) -> (r: String)
    ensures
        r@ == object_text(order_ref_fields(order_ref@)),
        string_field(order_ref_fields(order_ref@), "orderRef"@) == Some(order_ref@),
{
    let mut f: Vec<(String, String)> = Vec::new();
    assert(f.deep_view() =~= Seq::<(Seq<char>, Seq<char>)>::empty());
    push_string(&mut f, "orderRef", order_ref);
    assert(f.deep_view() =~= order_ref_fields(order_ref@));
    render_object(&f)
}

/// Reads the order reference of a body that names one order.
pub fn order_ref_from_json(text: &str) -> (r: Option<String>)
    ensures
        r.deep_view() == order_ref_model(text@),
{
    match parse_object(text) {
        Some(f) => find_string_field(&f, "orderRef"),
        None => None,
    }
}

impl CancelPayload {
    /// The request body as JSON text.
    pub fn to_json(&self) -> (r: String)
        ensures
            r@ == object_text(order_ref_fields(self.order_ref@)),
            string_field(order_ref_fields(self.order_ref@), "orderRef"@) == Some(self.order_ref@),
    {
        order_ref_json(&self.order_ref)
    }

    /// Reads a cancel request from JSON text.
    pub fn from_json(text: &str) -> (r: Option<CancelPayload>)
        ensures
            match r {
                Some(p) => order_ref_model(text@) == Some(p.order_ref@),
                None => order_ref_model(text@) is None,
            },
    {
        match order_ref_from_json(text) {
            Some(order_ref) => Some(CancelPayload { order_ref }),
            None => None,
        }
    }
}

} // verus!
