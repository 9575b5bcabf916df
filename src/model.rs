//! Request and response bodies of the four endpoints.

pub mod authenticate;
pub mod cancel;

pub mod collect;
pub mod sign;


use vstd::prelude::*;
use crate::json::{
    bool_text, field, list_from, opt_bool_from, opt_string_from, push_bool, push_list, push_string,
    object_fields, object_text, parse_object, push_field, read_list, read_opt_bool, read_opt_string,
    render_object, string_list_text, string_text, find_field,
};

verus! {

/// Restricts which authentication methods the service accepts for an order.
#[derive(Clone, Debug, PartialEq, Eq)]
pub struct Requirement {
    pub card_reader: Option<String>,
    pub certificate_policies: Vec<String>,
    pub issuer_cn: Option<String>,
    pub auto_start_token_required: Option<bool>,
    pub allow_fingerprint: Option<bool>,
}

pub ghost struct RequirementView {
    pub card_reader: Option<Seq<char>>,
    pub certificate_policies: Seq<Seq<char>>,
    pub issuer_cn: Option<Seq<char>>,
    pub auto_start_token_required: Option<bool>,
    pub allow_fingerprint: Option<bool>,
}

impl View for Requirement {
    type V = RequirementView;

    open spec fn view(&self) -> RequirementView {
        RequirementView {
            card_reader: self.card_reader.deep_view(),
            certificate_policies: self.certificate_policies.deep_view(),
            issuer_cn: self.issuer_cn.deep_view(),
            auto_start_token_required: self.auto_start_token_required,
            allow_fingerprint: self.allow_fingerprint,
        }
    }
}

/// `fields` with `(key, text of v)` appended where `v` is present.
pub open spec fn push_opt_string(fields: Seq<(Seq<char>, Seq<char>)>, key: Seq<char>, v: Option<Seq<char>>) -> Seq<(Seq<char>, Seq<char>)> {
    match v {
        Some(s) => fields.push((key, string_text(s))),
        None => fields,
    }
}

/// `fields` with `(key, literal of b)` appended where `b` is present.
pub open spec fn push_opt_bool(fields: Seq<(Seq<char>, Seq<char>)>, key: Seq<char>, b: Option<bool>) -> Seq<(Seq<char>, Seq<char>)> {
    match b {
        Some(b) => fields.push((key, bool_text(b))),
        None => fields,
    }
}

/// The fields a requirement is written with: absent values and an empty list
/// of policies are left out.
pub open spec fn requirement_fields(p: RequirementView) -> Seq<(Seq<char>, Seq<char>)> {
    let f = push_opt_string(Seq::empty(), "cardReader"@, p.card_reader);
    let f = if p.certificate_policies.len() > 0 {
        f.push(("certificatePolicies"@, string_list_text(p.certificate_policies)))
    } else {
        f
    };
    let f = push_opt_string(f, "issuerCn"@, p.issuer_cn);
    let f = push_opt_bool(f, "autoStartTokenRequired"@, p.auto_start_token_required);
    push_opt_bool(f, "allowFingerprint"@, p.allow_fingerprint)
}

/// The requirement that the fields hold.
pub open spec fn requirement_from_fields(f: Seq<(Seq<char>, Seq<char>)>) -> Option<RequirementView> {
    match (
        opt_string_from(field(f, "cardReader"@)),
        list_from(field(f, "certificatePolicies"@)),
        opt_string_from(field(f, "issuerCn"@)),
        opt_bool_from(field(f, "autoStartTokenRequired"@)),
        opt_bool_from(field(f, "allowFingerprint"@)),
    ) {
        (Some(c), Some(p), Some(i), Some(a), Some(b)) => Some(RequirementView {
            card_reader: c,
            certificate_policies: p,
            issuer_cn: i,
            auto_start_token_required: a,
            allow_fingerprint: b,
        }),
        _ => None,
    }
}

impl Requirement {
    /// The fields this requirement is written with. Reading them back gives
    /// the same requirement.
    pub fn to_fields(&self) -> (r: Vec<(String, String)>)
        ensures
            r.deep_view() == requirement_fields(self@),
            requirement_from_fields(r.deep_view()) == Some(self@),
    {
        proof {
            reveal_strlit("cardReader");
            reveal_strlit("certificatePolicies");
            reveal_strlit("issuerCn");
            reveal_strlit("autoStartTokenRequired");
            reveal_strlit("allowFingerprint");
            reveal_strlit("true");
            reveal_strlit("false");
            reveal_strlit("null");
            assert("cardReader"@.len() == 10);
            assert("certificatePolicies"@.len() == 19);
            assert("issuerCn"@.len() == 8);
            assert("autoStartTokenRequired"@.len() == 22);
            assert("allowFingerprint"@.len() == 16);
            assert("true"@.len() == 4 && "false"@.len() == 5 && "null"@.len() == 4);
            assert("true"@[0] != "null"@[0]);
        }
        let mut f: Vec<(String, String)> = Vec::new();
        assert(f.deep_view() =~= Seq::<(Seq<char>, Seq<char>)>::empty());
        if let Some(c) = &self.card_reader {
            push_string(&mut f, "cardReader", c);
        }
        if self.certificate_policies.len() > 0 {
            push_list(&mut f, "certificatePolicies", &self.certificate_policies);
        }
        if let Some(c) = &self.issuer_cn {
            push_string(&mut f, "issuerCn", c);
        }
        if let Some(b) = self.auto_start_token_required {
            push_bool(&mut f, "autoStartTokenRequired", b);
        }
        if let Some(b) = self.allow_fingerprint {
            push_bool(&mut f, "allowFingerprint", b);
        }
        assert(self.certificate_policies.len() == 0 ==> self.certificate_policies.deep_view() =~= Seq::<Seq<char>>::empty());
        f
    }

    /// Reads a requirement from the fields of an object.
    pub fn from_fields(f: &Vec<(String, String)>) -> (r: Option<Requirement>)
        ensures
            match r {
                Some(q) => requirement_from_fields(f.deep_view()) == Some(q@),
                None => requirement_from_fields(f.deep_view()) is None,
            },
    {
        let card_reader = read_opt_string(f, "cardReader");
        let certificate_policies = read_list(f, "certificatePolicies");
        let issuer_cn = read_opt_string(f, "issuerCn");
        let auto_start_token_required = read_opt_bool(f, "autoStartTokenRequired");
        let allow_fingerprint = read_opt_bool(f, "allowFingerprint");
        match (card_reader, certificate_policies, issuer_cn, auto_start_token_required, allow_fingerprint) {
            (Some(card_reader), Some(certificate_policies), Some(issuer_cn), Some(auto_start_token_required), Some(allow_fingerprint)) =>
                Some(Requirement { card_reader, certificate_policies, issuer_cn, auto_start_token_required, allow_fingerprint }),
            _ => None,
        }
    }
}

/// `fields` with the requirement's object text appended where it is present.
pub open spec fn push_opt_requirement(fields: Seq<(Seq<char>, Seq<char>)>, q: Option<RequirementView>) -> Seq<(Seq<char>, Seq<char>)> {
    match q {
        Some(q) => fields.push(("requirement"@, object_text(requirement_fields(q)))),
        None => fields,
    }
}

/// The optional requirement held by the field `requirement`: absent is `None`.
pub open spec fn opt_requirement_from(raw: Option<Seq<char>>) -> Option<Option<RequirementView>> {
    match raw {
        None => Some(None),
        Some(t) => match object_fields(t) {
            Some(g) => match requirement_from_fields(g) {
                Some(q) => Some(Some(q)),
                None => None,
            },
            None => None,
        },
    }
}

/// Appends the requirement, where there is one, as a nested object.
pub fn push_requirement(fields: &mut Vec<(String, String)>, q: &Option<Requirement>)
    requires
        field(old(fields).deep_view(), "requirement"@) is None,
    ensures
        final(fields).deep_view() == push_opt_requirement(old(fields).deep_view(), opt_requirement_view(*q)),
        forall|k: Seq<char>| k != "requirement"@ ==> #[trigger] field(final(fields).deep_view(), k) == field(old(fields).deep_view(), k),
        field(final(fields).deep_view(), "requirement"@) == match opt_requirement_view(*q) {
            Some(v) => Some(object_text(requirement_fields(v))),
            None => None,
        },
        opt_requirement_view(*q) matches Some(v) ==> requirement_from_fields(requirement_fields(v)) == Some(v),
{
    if let Some(q) = q {
        let g = q.to_fields();
        let text = render_object(&g);
        push_field(fields, "requirement", text);
    }
}

/// Reads the optional requirement of a request body.
pub fn read_opt_requirement(fields: &Vec<(String, String)>) -> (r: Option<Option<Requirement>>)
    ensures
        match r {
            Some(q) => opt_requirement_from(field(fields.deep_view(), "requirement"@)) == Some(opt_requirement_view(q)),
            None => opt_requirement_from(field(fields.deep_view(), "requirement"@)) is None,
        },
{
    match find_field(fields, "requirement") {
        None => Some(None),
        Some(t) => match parse_object(t.as_str()) {
            Some(g) => match Requirement::from_fields(&g) {
                Some(q) => Some(Some(q)),
                None => None,
            },
            None => None,
        },
    }
}

/// The view of an optional requirement.
pub open spec fn opt_requirement_view(q: Option<Requirement>) -> Option<RequirementView> {
    match q {
        Some(q) => Some(q@),
        None => None,
    }
}

} // verus!
