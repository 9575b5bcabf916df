//! The start of an authentication order, and what starting an order returns.

use vstd::prelude::*;
use crate::error::api_error_from_fields;
use crate::json::{
    field, find_string_field, object_fields, object_text, opt_string_from, parse_object, push_string,
    read_opt_string, render_object, string_field, string_text,
};
use crate::model::{
    opt_requirement_from, opt_requirement_view, push_opt_requirement, push_opt_string, push_requirement,
    read_opt_requirement, requirement_fields, requirement_from_fields, Requirement, RequirementView,
};

verus! {

/// What the authenticate endpoint returns: the tokens of a started order, or
/// the service's error.
#[derive(Clone, Debug, PartialEq, Eq)]
pub enum Authenticate {
    Success { auto_start_token: String, order_ref: String, qr_start_token: String, qr_start_secret: String },
    Error { error_code: String, details: String },
}

pub ghost enum StartView {
    Success { auto_start_token: Seq<char>, order_ref: Seq<char>, qr_start_token: Seq<char>, qr_start_secret: Seq<char> },
    Error { error_code: Seq<char>, details: Seq<char> },
}

impl View for Authenticate {
    type V = StartView;

    open spec fn view(&self) -> StartView {
        match self {
            Authenticate::Success { auto_start_token, order_ref, qr_start_token, qr_start_secret } => StartView::Success {
                auto_start_token: auto_start_token@,
                order_ref: order_ref@,
                qr_start_token: qr_start_token@,
                qr_start_secret: qr_start_secret@,
            },
            Authenticate::Error { error_code, details } => StartView::Error { error_code: error_code@, details: details@ },
        }
    }
}

/// The tokens of a started order that the fields hold, where all four are strings.
pub open spec fn start_success_from_fields(f: Seq<(Seq<char>, Seq<char>)>) -> Option<StartView> {
    match (
        string_field(f, "autoStartToken"@),
        string_field(f, "orderRef"@),
        string_field(f, "qrStartToken"@),
        string_field(f, "qrStartSecret"@),
    ) {
        (Some(a), Some(o), Some(t), Some(s)) => Some(StartView::Success {
            auto_start_token: a,
            order_ref: o,
            qr_start_token: t,
            qr_start_secret: s,
        }),
        _ => None,
    }
}

/// What a start body holds: the tokens of a started order where all four are
/// there, else the service's error where its two fields are there.
pub open spec fn start_from_fields(f: Seq<(Seq<char>, Seq<char>)>) -> Option<StartView> {
    match start_success_from_fields(f) {
        Some(s) => Some(s),
        None => match api_error_from_fields(f) {
            Some(e) => Some(StartView::Error { error_code: e.0, details: e.1 }),
            None => None,
        },
    }
}

/// What the start body `text` resolves to.
pub open spec fn start_model(text: Seq<char>) -> Option<StartView> {
    match object_fields(text) {
        Some(f) => start_from_fields(f),
        None => None,
    }
}

/// The start shapes, as their fields read one at a time.
pub(crate) struct StartFields {
    pub(crate) auto_start_token: Option<String>,
    pub(crate) order_ref: Option<String>,
    pub(crate) qr_start_token: Option<String>,
    pub(crate) qr_start_secret: Option<String>,
    pub(crate) error_code: Option<String>,
    pub(crate) details: Option<String>,
}

/// Reads the fields of both start shapes.
pub(crate) fn read_start_fields(f: &Vec<(String, String)>) -> (s: StartFields)
    ensures
        s.auto_start_token.deep_view() == string_field(f.deep_view(), "autoStartToken"@),
        s.order_ref.deep_view() == string_field(f.deep_view(), "orderRef"@),
        s.qr_start_token.deep_view() == string_field(f.deep_view(), "qrStartToken"@),
        s.qr_start_secret.deep_view() == string_field(f.deep_view(), "qrStartSecret"@),
        s.error_code.deep_view() == string_field(f.deep_view(), "errorCode"@),
        s.details.deep_view() == string_field(f.deep_view(), "details"@),
{
    StartFields {
        auto_start_token: find_string_field(f, "autoStartToken"),
        order_ref: find_string_field(f, "orderRef"),
        qr_start_token: find_string_field(f, "qrStartToken"),
        qr_start_secret: find_string_field(f, "qrStartSecret"),
        error_code: find_string_field(f, "errorCode"),
        details: find_string_field(f, "details"),
    }
}

impl Authenticate {
    /// Reads a start body from its fields: the tokens of a started order are
    /// tried first, the service's error second.
    pub fn from_fields(f: &Vec<(String, String)>) -> (r: Option<Authenticate>)
        ensures
            match r {
                Some(a) => start_from_fields(f.deep_view()) == Some(a@),
                None => start_from_fields(f.deep_view()) is None,
            },
    {
        let s = read_start_fields(f);
        match (s.auto_start_token, s.order_ref, s.qr_start_token, s.qr_start_secret) {
            (Some(auto_start_token), Some(order_ref), Some(qr_start_token), Some(qr_start_secret)) =>
                Some(Authenticate::Success { auto_start_token, order_ref, qr_start_token, qr_start_secret }),
            _ => match (s.error_code, s.details) {
                (Some(error_code), Some(details)) => Some(Authenticate::Error { error_code, details }),
                _ => None,
            },
        }
    }

    /// Reads a start body.
    pub fn from_json(text: &str) -> (r: Option<Authenticate>)
        ensures
            match r {
                Some(a) => start_model(text@) == Some(a@),
                None => start_model(text@) is None,
            },
    {
        match parse_object(text) {
            Some(f) => Authenticate::from_fields(&f),
            None => None,
        }
    }
}

/// The request body that starts an authentication order.
#[derive(Clone, Debug, PartialEq, Eq)]
pub struct AuthenticatePayload {
    /// The user's personal number; where absent, the order is started with the
    /// returned auto-start token.
    pub personal_number: Option<String>,
    /// The end user's IP address as the relying party sees it.
    pub end_user_ip: String,
    pub requirement: Option<Requirement>,
}

pub ghost struct AuthenticatePayloadView {
    pub personal_number: Option<Seq<char>>,
    pub end_user_ip: Seq<char>,
    pub requirement: Option<RequirementView>,
}

impl View for AuthenticatePayload {
    type V = AuthenticatePayloadView;

    open spec fn view(&self) -> AuthenticatePayloadView {
        AuthenticatePayloadView {
            personal_number: self.personal_number.deep_view(),
            end_user_ip: self.end_user_ip@,
            requirement: opt_requirement_view(self.requirement),
        }
    }
}

/// The fields an authentication request is written with.
pub open spec fn authenticate_payload_fields(p: AuthenticatePayloadView) -> Seq<(Seq<char>, Seq<char>)> {
    let f = push_opt_string(Seq::empty(), "personalNumber"@, p.personal_number);
    let f = f.push(("endUserIP"@, string_text(p.end_user_ip)));
    push_opt_requirement(f, p.requirement)
}

/// The authentication request that the fields hold.
pub open spec fn authenticate_payload_from_fields(f: Seq<(Seq<char>, Seq<char>)>) -> Option<AuthenticatePayloadView> {
    match (opt_string_from(field(f, "personalNumber"@)), string_field(f, "endUserIP"@), opt_requirement_from(field(f, "requirement"@))) {
        (Some(p), Some(ip), Some(q)) => Some(AuthenticatePayloadView { personal_number: p, end_user_ip: ip, requirement: q }),
        _ => None,
    }
}

/// The authentication request written in `text`.
pub open spec fn authenticate_payload_model(text: Seq<char>) -> Option<AuthenticatePayloadView> {
    match object_fields(text) {
        Some(f) => authenticate_payload_from_fields(f),
        None => None,
    }
}

impl AuthenticatePayload {
    /// The fields this request is written with. Each field reads back as the
    /// value it was written from; the requirement is written as the object of
    /// its own fields, which read back as the requirement.
    pub fn to_fields(&self) -> (r: Vec<(String, String)>)
        ensures
            r.deep_view() == authenticate_payload_fields(self@),
            opt_string_from(field(r.deep_view(), "personalNumber"@)) == Some(self@.personal_number),
            string_field(r.deep_view(), "endUserIP"@) == Some(self@.end_user_ip),
            field(r.deep_view(), "requirement"@) == match self@.requirement {
                Some(q) => Some(object_text(requirement_fields(q))),
                None => None,
            },
            self@.requirement matches Some(q) ==> requirement_from_fields(requirement_fields(q)) == Some(q),
    {
        proof {
            reveal_strlit("personalNumber");
            reveal_strlit("endUserIP");
            reveal_strlit("requirement");
            assert("personalNumber"@.len() == 14 && "endUserIP"@.len() == 9 && "requirement"@.len() == 11);
        }
        let mut f: Vec<(String, String)> = Vec::new();
        assert(f.deep_view() =~= Seq::<(Seq<char>, Seq<char>)>::empty());
        if let Some(p) = &self.personal_number {
            push_string(&mut f, "personalNumber", p);
        }
        push_string(&mut f, "endUserIP", &self.end_user_ip);
        push_requirement(&mut f, &self.requirement);
        f
    }

    /// The request body as JSON text.
    pub fn to_json(&self) -> (r: String)
        ensures
            r@ == object_text(authenticate_payload_fields(self@)),
    {
        let f = self.to_fields();
        render_object(&f)
    }

    /// Reads an authentication request from JSON text.
    pub fn from_json(text: &str) -> (r: Option<AuthenticatePayload>)
        ensures
            match r {
                Some(p) => authenticate_payload_model(text@) == Some(p@),
                None => authenticate_payload_model(text@) is None,
            },
    {
        let f = match parse_object(text) {
            Some(f) => f,
            None => return None,
        };
        let personal_number = read_opt_string(&f, "personalNumber");
        let end_user_ip = find_string_field(&f, "endUserIP");
        let requirement = read_opt_requirement(&f);
        match (personal_number, end_user_ip, requirement) {
            (Some(personal_number), Some(end_user_ip), Some(requirement)) =>
                Some(AuthenticatePayload { personal_number, end_user_ip, requirement }),
            _ => None,
        }
    }
}

} // verus!
