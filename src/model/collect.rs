//! The body of the collect request and the statuses it resolves to.

use vstd::prelude::*;
use crate::model::cancel::{order_ref_fields, order_ref_from_json, order_ref_json, order_ref_model};
use crate::json::object_text;
use crate::error::api_error_from_fields;
use crate::json::{field, find_field, find_string_field, object_fields, parse_object, string_eq, string_field};

verus! {

/// Information related to the user.
#[derive(Clone, Debug, PartialEq, Eq)]
pub struct User {
    pub personal_number: String,
    pub name: String,
    pub given_name: String,
    pub surname: String,
}

/// Information related to the device.
#[derive(Clone, Debug, PartialEq, Eq)]
pub struct Device {
    pub ip_address: String,
}

/// Validity window of the user's certificate.
#[derive(Clone, Debug, PartialEq, Eq)]
pub struct Cert {
    pub not_before: String,
    pub not_after: String,
}

/// What a completed order releases.
#[derive(Clone, Debug, PartialEq, Eq)]
pub struct CompletionData {
    pub user: User,
    pub device: Device,
    pub cert: Cert,
    pub signature: String,
    pub ocsp_response: String,
}

/// The outcome of one collect call.
#[derive(Clone, Debug, PartialEq, Eq)]
pub enum CollectResponse {
    Pending { order_ref: String, hint_code: String },
    Failed { order_ref: String, hint_code: String },
    Complete { order_ref: String, completion_data: CompletionData },
    Error { error_code: String, details: String },
}

/// A status body, told apart by its `status` field.
#[derive(Clone, Debug, PartialEq, Eq)]
pub enum CollectValue {
    Pending { order_ref: String, hint_code: String },
    Failed { order_ref: String, hint_code: String },
    Complete { order_ref: String, completion_data: CompletionData },
}

/// An error body of the collect endpoint.
#[derive(Clone, Debug, PartialEq, Eq)]
pub struct CollectError {
    pub error_code: String,
    pub details: String,
}

/// The request body of the collect endpoint.
#[derive(Clone, Debug, PartialEq, Eq)]
pub struct CollectPayload {
    pub order_ref: String,
}

pub ghost struct UserView {
    pub personal_number: Seq<char>,
    pub name: Seq<char>,
    pub given_name: Seq<char>,
    pub surname: Seq<char>,
}

pub ghost struct CompletionDataView {
    pub user: UserView,
    pub ip_address: Seq<char>,
    pub not_before: Seq<char>,
    pub not_after: Seq<char>,
    pub signature: Seq<char>,
    pub ocsp_response: Seq<char>,
}

pub ghost enum CollectView {
    Pending { order_ref: Seq<char>, hint_code: Seq<char> },
    Failed { order_ref: Seq<char>, hint_code: Seq<char> },
    Complete { order_ref: Seq<char>, completion_data: CompletionDataView },
    Error { error_code: Seq<char>, details: Seq<char> },
}

impl View for User {
    type V = UserView;

    open spec fn view(&self) -> UserView {
        UserView {
            personal_number: self.personal_number@,
            name: self.name@,
            given_name: self.given_name@,
            surname: self.surname@,
        }
    }
}

impl View for CompletionData {
    type V = CompletionDataView;

    open spec fn view(&self) -> CompletionDataView {
        CompletionDataView {
            user: self.user@,
            ip_address: self.device.ip_address@,
            not_before: self.cert.not_before@,
            not_after: self.cert.not_after@,
            signature: self.signature@,
            ocsp_response: self.ocsp_response@,
        }
    }
}

impl View for CollectResponse {
    type V = CollectView;

    open spec fn view(&self) -> CollectView {
        match self {
            CollectResponse::Pending { order_ref, hint_code } => CollectView::Pending { order_ref: order_ref@, hint_code: hint_code@ },
            CollectResponse::Failed { order_ref, hint_code } => CollectView::Failed { order_ref: order_ref@, hint_code: hint_code@ },
            CollectResponse::Complete { order_ref, completion_data } => CollectView::Complete { order_ref: order_ref@, completion_data: completion_data@ },
            CollectResponse::Error { error_code, details } => CollectView::Error { error_code: error_code@, details: details@ },
        }
    }
}

impl View for CollectValue {
    type V = CollectView;

    open spec fn view(&self) -> CollectView {
        match self {
            CollectValue::Pending { order_ref, hint_code } => CollectView::Pending { order_ref: order_ref@, hint_code: hint_code@ },
            CollectValue::Failed { order_ref, hint_code } => CollectView::Failed { order_ref: order_ref@, hint_code: hint_code@ },
            CollectValue::Complete { order_ref, completion_data } => CollectView::Complete { order_ref: order_ref@, completion_data: completion_data@ },
        }
    }
}

/// The user that the fields hold, where all four are strings.
pub open spec fn user_from_fields(f: Seq<(Seq<char>, Seq<char>)>) -> Option<UserView> {
    match (string_field(f, "personalNumber"@), string_field(f, "name"@), string_field(f, "givenName"@), string_field(f, "surname"@)) {
        (Some(p), Some(n), Some(g), Some(s)) => Some(UserView { personal_number: p, name: n, given_name: g, surname: s }),
        _ => None,
    }
}

/// The object text `text` read with `read`.
pub open spec fn nested<A>(text: Option<Seq<char>>, read: spec_fn(Seq<(Seq<char>, Seq<char>)>) -> Option<A>) -> Option<A> {
    match text {
        Some(t) => match object_fields(t) {
            Some(f) => read(f),
            None => None,
        },
        None => None,
    }
}

/// The `ipAddress` string that the fields hold.
pub open spec fn device_from_fields(f: Seq<(Seq<char>, Seq<char>)>) -> Option<Seq<char>> {
    string_field(f, "ipAddress"@)
}

/// The `notBefore` and `notAfter` strings that the fields hold.
pub open spec fn cert_from_fields(f: Seq<(Seq<char>, Seq<char>)>) -> Option<(Seq<char>, Seq<char>)> {
    match (string_field(f, "notBefore"@), string_field(f, "notAfter"@)) {
        (Some(b), Some(a)) => Some((b, a)),
        _ => None,
    }
}

/// The completion data that the fields hold: three nested objects and two strings.
pub open spec fn completion_data_from_fields(f: Seq<(Seq<char>, Seq<char>)>) -> Option<CompletionDataView> {
    match (
        nested(field(f, "user"@), |g| user_from_fields(g)),
        nested(field(f, "device"@), |g| device_from_fields(g)),
        nested(field(f, "cert"@), |g| cert_from_fields(g)),
        string_field(f, "signature"@),
        string_field(f, "ocspResponse"@),
    ) {
        (Some(u), Some(ip), Some(c), Some(s), Some(o)) => Some(CompletionDataView {
            user: u,
            ip_address: ip,
            not_before: c.0,
            not_after: c.1,
            signature: s,
            ocsp_response: o,
        }),
        _ => None,
    }
}

/// The status that the fields hold, chosen by the string in `status`.
pub open spec fn collect_value_from_fields(f: Seq<(Seq<char>, Seq<char>)>) -> Option<CollectView> {
    match string_field(f, "status"@) {
        Some(s) => if s == "pending"@ || s == "failed"@ {
            match (string_field(f, "orderRef"@), string_field(f, "hintCode"@)) {
                (Some(o), Some(h)) => if s == "pending"@ {
                    Some(CollectView::Pending { order_ref: o, hint_code: h })
                } else {
                    Some(CollectView::Failed { order_ref: o, hint_code: h })
                },
                _ => None,
            }
        } else if s == "complete"@ {
            match (string_field(f, "orderRef"@), nested(field(f, "completionData"@), |g| completion_data_from_fields(g))) {
                (Some(o), Some(c)) => Some(CollectView::Complete { order_ref: o, completion_data: c }),
                _ => None,
            }
        } else {
            None
        },
        None => None,
    }
}

/// What a collect body resolves to: an error body is recognised first, and a
/// status body only where the text is no error body.
pub open spec fn collect_model(text: Seq<char>) -> Option<CollectView> {
    match object_fields(text) {
        Some(f) => match api_error_from_fields(f) {
            Some(e) => Some(CollectView::Error { error_code: e.0, details: e.1 }),
            None => collect_value_from_fields(f),
        },
        None => None,
    }
}

impl User {
    /// Reads a user from the fields of an object.
    pub fn from_fields(f: &Vec<(String, String)>) -> (r: Option<User>)
        ensures
            match r {
                Some(u) => user_from_fields(f.deep_view()) == Some(u@),
                None => user_from_fields(f.deep_view()) is None,
            },
    {
        let personal_number = find_string_field(f, "personalNumber");
        let name = find_string_field(f, "name");
        let given_name = find_string_field(f, "givenName");
        let surname = find_string_field(f, "surname");
        match (personal_number, name, given_name, surname) {
            (Some(personal_number), Some(name), Some(given_name), Some(surname)) =>
                Some(User { personal_number, name, given_name, surname }),
            _ => None,
        }
    }
}

impl Device {
    /// Reads a device from the fields of an object.
    pub fn from_fields(f: &Vec<(String, String)>) -> (r: Option<Device>)
        ensures
            match r {
                Some(d) => device_from_fields(f.deep_view()) == Some(d.ip_address@),
                None => device_from_fields(f.deep_view()) is None,
            },
    {
        match find_string_field(f, "ipAddress") {
            Some(ip_address) => Some(Device { ip_address }),
            None => None,
        }
    }
}

impl Cert {
    /// Reads a validity window from the fields of an object.
    pub fn from_fields(f: &Vec<(String, String)>) -> (r: Option<Cert>)
        ensures
            match r {
                Some(c) => cert_from_fields(f.deep_view()) == Some((c.not_before@, c.not_after@)),
                None => cert_from_fields(f.deep_view()) is None,
            },
    {
        let not_before = find_string_field(f, "notBefore");
        let not_after = find_string_field(f, "notAfter");
        match (not_before, not_after) {
            (Some(not_before), Some(not_after)) => Some(Cert { not_before, not_after }),
            _ => None,
        }
    }
}

/// The fields of the object held by the field named `key`.
fn find_object_field(f: &Vec<(String, String)>, key: &str) -> (r: Option<Vec<(String, String)>>)
    ensures
        match field(f.deep_view(), key@) {
            Some(t) => r.deep_view() == object_fields(t),
            None => r is None,
        },
{
    match find_field(f, key) {
        Some(raw) => parse_object(raw.as_str()),
        None => None,
    }
}

impl CompletionData {
    /// Reads completion data from the fields of an object.
    pub fn from_fields(f: &Vec<(String, String)>) -> (r: Option<CompletionData>)
        ensures
            match r {
                Some(c) => completion_data_from_fields(f.deep_view()) == Some(c@),
                None => completion_data_from_fields(f.deep_view()) is None,
            },
    {
        let user = match find_object_field(f, "user") {
            Some(g) => User::from_fields(&g),
            None => None,
        };
        let device = match find_object_field(f, "device") {
            Some(g) => Device::from_fields(&g),
            None => None,
        };
        let cert = match find_object_field(f, "cert") {
            Some(g) => Cert::from_fields(&g),
            None => None,
        };
        let signature = find_string_field(f, "signature");
        let ocsp_response = find_string_field(f, "ocspResponse");
        match (user, device, cert, signature, ocsp_response) {
            (Some(user), Some(device), Some(cert), Some(signature), Some(ocsp_response)) =>
                Some(CompletionData { user, device, cert, signature, ocsp_response }),
            _ => None,
        }
    }
}

impl CollectValue {
    /// Reads a status from the fields of an object, by the string in `status`.
    pub fn from_fields(f: &Vec<(String, String)>) -> (r: Option<CollectValue>)
        ensures
            match r {
                Some(v) => collect_value_from_fields(f.deep_view()) == Some(v@),
                None => collect_value_from_fields(f.deep_view()) is None,
            },
    {
        let status = match find_string_field(f, "status") {
            Some(s) => s,
            None => return None,
        };
        let pending = string_eq(&status, "pending");
        if pending || string_eq(&status, "failed") {
            let order_ref = find_string_field(f, "orderRef");
            let hint_code = find_string_field(f, "hintCode");
            match (order_ref, hint_code) {
                (Some(order_ref), Some(hint_code)) => if pending {
                    Some(CollectValue::Pending { order_ref, hint_code })
                } else {
                    Some(CollectValue::Failed { order_ref, hint_code })
                },
                _ => None,
            }
        } else if string_eq(&status, "complete") {
            let order_ref = find_string_field(f, "orderRef");
            let completion_data = match find_object_field(f, "completionData") {
                Some(g) => CompletionData::from_fields(&g),
                None => None,
            };
            match (order_ref, completion_data) {
                (Some(order_ref), Some(completion_data)) => Some(CollectValue::Complete { order_ref, completion_data }),
                _ => None,
            }
        } else {
            None
        }
    }
}

impl From<CollectValue> for CollectResponse {
    fn from(value: CollectValue) -> (r: CollectResponse) {
        match value {
            CollectValue::Pending { order_ref, hint_code } => CollectResponse::Pending { order_ref, hint_code },
            CollectValue::Failed { order_ref, hint_code } => CollectResponse::Failed { order_ref, hint_code },
            CollectValue::Complete { order_ref, completion_data } => CollectResponse::Complete { order_ref, completion_data },
        }
    }
}

impl vstd::std_specs::convert::FromSpecImpl<CollectValue> for CollectResponse {
    open spec fn obeys_from_spec() -> bool {
        true
    }

    open spec fn from_spec(value: CollectValue) -> CollectResponse {
        match value {
            CollectValue::Pending { order_ref, hint_code } => CollectResponse::Pending { order_ref, hint_code },
            CollectValue::Failed { order_ref, hint_code } => CollectResponse::Failed { order_ref, hint_code },
            CollectValue::Complete { order_ref, completion_data } => CollectResponse::Complete { order_ref, completion_data },
        }
    }
}

impl From<CollectError> for CollectResponse {
    fn from(value: CollectError) -> (r: CollectResponse) {
        CollectResponse::Error { error_code: value.error_code, details: value.details }
    }
}

impl vstd::std_specs::convert::FromSpecImpl<CollectError> for CollectResponse {
    open spec fn obeys_from_spec() -> bool {
        true
    }

    open spec fn from_spec(value: CollectError) -> CollectResponse {
        CollectResponse::Error { error_code: value.error_code, details: value.details }
    }
}

impl CollectPayload {
    /// The request body as JSON text.
    pub fn to_json(&self) -> (r: String)
        ensures
            r@ == object_text(order_ref_fields(self.order_ref@)),
            string_field(order_ref_fields(self.order_ref@), "orderRef"@) == Some(self.order_ref@),
    {
        order_ref_json(&self.order_ref)
    }

    /// Reads a collect request from JSON text.
    pub fn from_json(text: &str) -> (r: Option<CollectPayload>)
        ensures
            match r {
                Some(p) => order_ref_model(text@) == Some(p.order_ref@),
                None => order_ref_model(text@) is None,
            },
    {
        match order_ref_from_json(text) {
            Some(order_ref) => Some(CollectPayload { order_ref }),
            None => None,
        }
    }
}

} // verus!
