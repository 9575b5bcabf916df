//! The start of a signing order, and what starting it returns.

use vstd::prelude::*;
use vstd::string::*;
use crate::json::{
    field, find_string_field, object_fields, object_text, opt_string_from, parse_object, push_string,
    read_opt_string, render_object, string_eq, string_field, string_text,
};
use crate::model::authenticate::{read_start_fields, start_from_fields, start_model, StartView};
use crate::model::{
    opt_requirement_from, opt_requirement_view, push_opt_requirement, push_opt_string, push_requirement,
    read_opt_requirement, requirement_fields, requirement_from_fields, Requirement, RequirementView,
};

verus! {

/// What the sign endpoint returns: the tokens of a started order, or the
/// service's error.
#[derive(Clone, Debug, PartialEq, Eq)]
pub enum SignResponse {
    Success { auto_start_token: String, order_ref: String, qr_start_token: String, qr_start_secret: String },
    Error { error_code: String, details: String },
}

impl View for SignResponse {
    type V = StartView;

    open spec fn view(&self) -> StartView {
        match self {
            SignResponse::Success { auto_start_token, order_ref, qr_start_token, qr_start_secret } => StartView::Success {
                auto_start_token: auto_start_token@,
                order_ref: order_ref@,
                qr_start_token: qr_start_token@,
                qr_start_secret: qr_start_secret@,
            },
            SignResponse::Error { error_code, details } => StartView::Error { error_code: error_code@, details: details@ },
        }
    }
}

impl SignResponse {
    /// Reads a start body from its fields: the tokens of a started order are
    /// tried first, the service's error second.
    pub fn from_fields(f: &Vec<(String, String)>) -> (r: Option<SignResponse>)
        ensures
            match r {
                Some(a) => start_from_fields(f.deep_view()) == Some(a@),
                None => start_from_fields(f.deep_view()) is None,
            },
    {
        let s = read_start_fields(f);
        match (s.auto_start_token, s.order_ref, s.qr_start_token, s.qr_start_secret) {
            (Some(auto_start_token), Some(order_ref), Some(qr_start_token), Some(qr_start_secret)) =>
                Some(SignResponse::Success { auto_start_token, order_ref, qr_start_token, qr_start_secret }),
            _ => match (s.error_code, s.details) {
                (Some(error_code), Some(details)) => Some(SignResponse::Error { error_code, details }),
                _ => None,
            },
        }
    }

    /// Reads a start body.
    pub fn from_json(text: &str) -> (r: Option<SignResponse>)
        ensures
            match r {
                Some(a) => start_model(text@) == Some(a@),
                None => start_model(text@) is None,
            },
    {
        match parse_object(text) {
            Some(f) => SignResponse::from_fields(&f),
            None => None,
        }
    }
}

/// How the visible data is formatted.
#[derive(Clone, Copy, Debug, PartialEq, Eq)]
pub enum UserVisibleDataFormat {
    /// Limited markdown, written `simpleMarkdownV1`.
    SimpleMarkdownV1,
}

/// The format that the field holds: absent or `null` is `None`, and
/// `simpleMarkdownV1` the one format known.
pub open spec fn opt_format_from(raw: Option<Seq<char>>) -> Option<Option<UserVisibleDataFormat>> {
    match opt_string_from(raw) {
        Some(Some(s)) => if s == "simpleMarkdownV1"@ { Some(Some(UserVisibleDataFormat::SimpleMarkdownV1)) } else { None },
        Some(None) => Some(None),
        None => None,
    }
}

/// The request body that starts a signing order.
#[derive(Clone, Debug, PartialEq, Eq)]
pub struct SignPayload {
    /// The user's personal number; where absent, the order is started with the
    /// returned auto-start token.
    pub personal_number: Option<String>,
    /// The end user's IP address as the relying party sees it.
    pub end_user_ip: String,
    /// The text shown to the user and signed, base64 encoded.
    pub user_visible_data: String,
    /// Data signed but not shown, base64 encoded.
    pub user_non_visible_data: Option<String>,
    pub user_visible_data_format: Option<UserVisibleDataFormat>,
    pub requirement: Option<Requirement>,
}

pub ghost struct SignPayloadView {
    pub personal_number: Option<Seq<char>>,
    pub end_user_ip: Seq<char>,
    pub user_visible_data: Seq<char>,
    pub user_non_visible_data: Option<Seq<char>>,
    pub user_visible_data_format: Option<UserVisibleDataFormat>,
    pub requirement: Option<RequirementView>,
}

impl View for SignPayload {
    type V = SignPayloadView;

    open spec fn view(&self) -> SignPayloadView {
        SignPayloadView {
            personal_number: self.personal_number.deep_view(),
            end_user_ip: self.end_user_ip@,
            user_visible_data: self.user_visible_data@,
            user_non_visible_data: self.user_non_visible_data.deep_view(),
            user_visible_data_format: self.user_visible_data_format,
            requirement: opt_requirement_view(self.requirement),
        }
    }
}

/// The fields a signing request is written with.
pub open spec fn sign_payload_fields(p: SignPayloadView) -> Seq<(Seq<char>, Seq<char>)> {
    let f = push_opt_string(Seq::empty(), "personalNumber"@, p.personal_number);
    let f = f.push(("endUserIP"@, string_text(p.end_user_ip)));
    let f = f.push(("userVisibleData"@, string_text(p.user_visible_data)));
    let f = push_opt_string(f, "userNonVisibleData"@, p.user_non_visible_data);
    let f = match p.user_visible_data_format {
        Some(UserVisibleDataFormat::SimpleMarkdownV1) => f.push(("userVisibleDataFormat"@, string_text("simpleMarkdownV1"@))),
        None => f,
    };
    push_opt_requirement(f, p.requirement)
}

/// The signing request that the fields hold.
pub open spec fn sign_payload_from_fields(f: Seq<(Seq<char>, Seq<char>)>) -> Option<SignPayloadView> {
    match (
        opt_string_from(field(f, "personalNumber"@)),
        string_field(f, "endUserIP"@),
        string_field(f, "userVisibleData"@),
        opt_string_from(field(f, "userNonVisibleData"@)),
        opt_format_from(field(f, "userVisibleDataFormat"@)),
        opt_requirement_from(field(f, "requirement"@)),
    ) {
        (Some(p), Some(ip), Some(v), Some(n), Some(fmt), Some(q)) => Some(SignPayloadView {
            personal_number: p,
            end_user_ip: ip,
            user_visible_data: v,
            user_non_visible_data: n,
            user_visible_data_format: fmt,
            requirement: q,
        }),
        _ => None,
    }
}

/// The signing request written in `text`.
pub open spec fn sign_payload_model(text: Seq<char>) -> Option<SignPayloadView> {
    match object_fields(text) {
        Some(f) => sign_payload_from_fields(f),
        None => None,
    }
}

impl SignPayload {
    /// The fields this request is written with. Each field reads back as the
    /// value it was written from; the requirement is written as the object of
    /// its own fields, which read back as the requirement.
    pub fn to_fields(&self) -> (r: Vec<(String, String)>)
        ensures
            r.deep_view() == sign_payload_fields(self@),
            opt_string_from(field(r.deep_view(), "personalNumber"@)) == Some(self@.personal_number),
            string_field(r.deep_view(), "endUserIP"@) == Some(self@.end_user_ip),
            string_field(r.deep_view(), "userVisibleData"@) == Some(self@.user_visible_data),
            opt_string_from(field(r.deep_view(), "userNonVisibleData"@)) == Some(self@.user_non_visible_data),
            opt_format_from(field(r.deep_view(), "userVisibleDataFormat"@)) == Some(self@.user_visible_data_format),
            field(r.deep_view(), "requirement"@) == match self@.requirement {
                Some(q) => Some(object_text(requirement_fields(q))),
                None => None,
            },
            self@.requirement matches Some(q) ==> requirement_from_fields(requirement_fields(q)) == Some(q),
    {
        proof {
            reveal_strlit("personalNumber");
            reveal_strlit("endUserIP");
            reveal_strlit("userVisibleData");
            reveal_strlit("userNonVisibleData");
            reveal_strlit("userVisibleDataFormat");
            reveal_strlit("requirement");
            reveal_strlit("null");
            assert("personalNumber"@.len() == 14 && "endUserIP"@.len() == 9 && "requirement"@.len() == 11);
            assert("userVisibleData"@.len() == 15 && "userNonVisibleData"@.len() == 18);
            assert("userVisibleDataFormat"@.len() == 21);
        }
        let mut f: Vec<(String, String)> = Vec::new();
        assert(f.deep_view() =~= Seq::<(Seq<char>, Seq<char>)>::empty());
        if let Some(p) = &self.personal_number {
            push_string(&mut f, "personalNumber", p);
        }
        push_string(&mut f, "endUserIP", &self.end_user_ip);
        push_string(&mut f, "userVisibleData", &self.user_visible_data);
        if let Some(n) = &self.user_non_visible_data {
            push_string(&mut f, "userNonVisibleData", n);
        }
        if let Some(UserVisibleDataFormat::SimpleMarkdownV1) = self.user_visible_data_format {
            let name = String::from_str("simpleMarkdownV1");
            push_string(&mut f, "userVisibleDataFormat", &name);
        }
        push_requirement(&mut f, &self.requirement);
        f
    }

    /// The request body as JSON text.
    pub fn to_json(&self) -> (r: String)
        ensures
            r@ == object_text(sign_payload_fields(self@)),
    {
        let f = self.to_fields();
        render_object(&f)
    }

    /// Reads a signing request from JSON text.
    pub fn from_json(text: &str) -> (r: Option<SignPayload>)
        ensures
            match r {
                Some(p) => sign_payload_model(text@) == Some(p@),
                None => sign_payload_model(text@) is None,
            },
    {
        let f = match parse_object(text) {
            Some(f) => f,
            None => return None,
        };
        let personal_number = read_opt_string(&f, "personalNumber");
        let end_user_ip = find_string_field(&f, "endUserIP");
        let user_visible_data = find_string_field(&f, "userVisibleData");
        let user_non_visible_data = read_opt_string(&f, "userNonVisibleData");
        let user_visible_data_format = match read_opt_string(&f, "userVisibleDataFormat") {
            Some(Some(s)) => if string_eq(&s, "simpleMarkdownV1") {
                Some(Some(UserVisibleDataFormat::SimpleMarkdownV1))
            } else {
                None
            },
            Some(None) => Some(None),
            None => None,
        };
        let requirement = read_opt_requirement(&f);
        match (personal_number, end_user_ip, user_visible_data, user_non_visible_data, user_visible_data_format, requirement) {
            (Some(personal_number), Some(end_user_ip), Some(user_visible_data), Some(user_non_visible_data), Some(user_visible_data_format), Some(requirement)) =>
                Some(SignPayload {
                    personal_number,
                    end_user_ip,
                    user_visible_data,
                    user_non_visible_data,
                    user_visible_data_format,
                    requirement,
                }),
            _ => None,
        }
    }
}

} // verus!
