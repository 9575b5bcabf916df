//! The JSON layer: an object is read as its fields, each a key with the raw
//! text of its value, and values are read further one at a time.

use vstd::prelude::*;
use vstd::string::*;

verus! {

/// The fields of the JSON object written in `text`, each key with the compact
/// text of its value; `None` where `text` is not one JSON object.
pub uninterp spec fn object_fields(text: Seq<char>) -> Option<Seq<(Seq<char>, Seq<char>)>>;

/// The string that the JSON text `text` holds; `None` where it is no JSON string.
pub uninterp spec fn string_value(text: Seq<char>) -> Option<Seq<char>>;

/// The strings that the JSON text `text` holds; `None` where it is no JSON
/// array of strings.
pub uninterp spec fn string_list_value(text: Seq<char>) -> Option<Seq<Seq<char>>>;

/// The JSON string literal that writes `s`.
pub uninterp spec fn string_text(s: Seq<char>) -> Seq<char>;

/// The JSON array literal that writes the strings `v`.
pub uninterp spec fn string_list_text(v: Seq<Seq<char>>) -> Seq<char>;

/// Relies on `serde_json::from_str` into `serde_json::Map`, and on the
/// compact `to_string` of each value: the result depends on `text` alone.
#[verifier::external_body]
pub(crate) fn parse_object_or_error(text: &str) -> (r: Result<Vec<(String, String)>, serde_json::Error>)
    ensures
        match r {
            Ok(v) => object_fields(text@) == Some(v.deep_view()),
            Err(_) => object_fields(text@) is None,
        },
{
    serde_json::from_str::<serde_json::Map<String, serde_json::Value>>(text)
        .map(|m| m.into_iter().map(|(k, v)| (k, v.to_string())).collect())
}

/// Reads the fields of the object written in `text`.
pub fn parse_object(text: &str) -> (r: Option<Vec<(String, String)>>)
    ensures
        r.deep_view() == object_fields(text@),
{
    match parse_object_or_error(text) {
        Ok(v) => Some(v),
        Err(_) => None,
    }
}

/// Relies on `serde_json::from_str` into `String`.
#[verifier::external_body]
pub(crate) fn parse_string(text: &str) -> (r: Option<String>)
    ensures
        r.deep_view() == string_value(text@),
{
    serde_json::from_str::<String>(text).ok()
}

/// Relies on `serde_json::from_str` into `Vec<String>`.
#[verifier::external_body]
pub(crate) fn parse_string_list(text: &str) -> (r: Option<Vec<String>>)
    ensures
        r.deep_view() == string_list_value(text@),
{
    serde_json::from_str::<Vec<String>>(text).ok()
}

/// Relies on `serde_json::to_string` of a `str`, which never fails and writes
/// a string literal that `serde_json::from_str` reads back as `s`.
#[verifier::external_body]
pub(crate) fn string_literal(s: &str) -> (r: String)
    ensures
        r@ == string_text(s@),
        string_value(r@) == Some(s@),
{
    match serde_json::to_string(s) {
        Ok(t) => t,
        Err(_) => String::new(),
    }
}

/// Relies on `serde_json::to_string` of a `[String]`, which never fails and
/// writes an array literal that `serde_json::from_str` reads back as `v`.
#[verifier::external_body]
pub(crate) fn string_list_literal(v: &[String]) -> (r: String)
    ensures
        r@ == string_list_text(v.deep_view()),
        string_list_value(r@) == Some(v.deep_view()),
{
    match serde_json::to_string(v) {
        Ok(t) => t,
        Err(_) => String::new(),
    }
}

/// The raw text of the first field named `key`.
pub open spec fn field(fields: Seq<(Seq<char>, Seq<char>)>, key: Seq<char>) -> Option<Seq<char>>
    decreases fields.len(),
{
    if fields.len() == 0 {
        None
    } else if fields[0].0 == key {
        Some(fields[0].1)
    } else {
        field(fields.drop_first(), key)
    }
}

/// The string held by the field named `key`, where it is present and a string.
pub open spec fn string_field(fields: Seq<(Seq<char>, Seq<char>)>, key: Seq<char>) -> Option<Seq<char>> {
    match field(fields, key) {
        Some(raw) => string_value(raw),
        None => None,
    }
}

/// Finds the raw text of the first field named `key`.
pub fn find_field(fields: &Vec<(String, String)>, key: &str) -> (r: Option<String>)
    ensures
        r.deep_view() == field(fields.deep_view(), key@),
{
    let mut i: usize = 0;
    assert(fields.deep_view().skip(0) =~= fields.deep_view());
    while i < fields.len()
        invariant
            i <= fields.len(),
            field(fields.deep_view(), key@) == field(fields.deep_view().skip(i as int), key@),
        decreases fields.len() - i,
    {
        let ghost rest = fields.deep_view().skip(i as int);
        assert(rest.drop_first() =~= fields.deep_view().skip(i + 1));
        if string_eq(&fields[i].0, key) {
            return Some(fields[i].1.clone());
        }
        i = i + 1;
    }
    assert(fields.deep_view().skip(i as int).len() == 0);
    None
}

/// Finds the string held by the field named `key`.
pub fn find_string_field(fields: &Vec<(String, String)>, key: &str) -> (r: Option<String>)
    ensures
        r.deep_view() == string_field(fields.deep_view(), key@),
{
    match find_field(fields, key) {
        Some(raw) => parse_string(raw.as_str()),
        None => None,
    }
}

/// Whether `a` and `b` hold the same characters.
pub fn string_eq(a: &String, b: &str) -> (r: bool)
    ensures
        r == (a@ == b@),
{
    let b = String::from_str(b);
    *a == b
}

/// An optional string field: absent or `null` is `None`; `None` where the
/// value is neither a string nor `null`.
pub open spec fn opt_string_from(raw: Option<Seq<char>>) -> Option<Option<Seq<char>>> {
    match raw {
        None => Some(None),
        Some(r) => match string_value(r) {
            Some(s) => Some(Some(s)),
            None => if r == "null"@ { Some(None) } else { None },
        },
    }
}

/// An optional boolean field: absent or `null` is `None`.
pub open spec fn opt_bool_from(raw: Option<Seq<char>>) -> Option<Option<bool>> {
    match raw {
        None => Some(None),
        Some(r) => if r == "true"@ {
            Some(Some(true))
        } else if r == "false"@ {
            Some(Some(false))
        } else if r == "null"@ {
            Some(None)
        } else {
            None
        },
    }
}

/// A list of strings: absent is empty.
pub open spec fn list_from(raw: Option<Seq<char>>) -> Option<Seq<Seq<char>>> {
    match raw {
        None => Some(Seq::empty()),
        Some(r) => string_list_value(r),
    }
}

/// The JSON literal of a boolean.
pub open spec fn bool_text(b: bool) -> Seq<char> {
    if b { "true"@ } else { "false"@ }
}

/// One member of an object: the key's literal, a colon, the value's text.
pub open spec fn member_text(m: (Seq<char>, Seq<char>)) -> Seq<char> {
    string_text(m.0) + ":"@ + m.1
}

/// The members of an object, separated by commas.
pub open spec fn members_text(fields: Seq<(Seq<char>, Seq<char>)>) -> Seq<char>
    decreases fields.len(),
{
    if fields.len() == 0 {
        Seq::empty()
    } else if fields.len() == 1 {
        member_text(fields[0])
    } else {
        members_text(fields.drop_last()) + ","@ + member_text(fields.last())
    }
}

/// The object text that writes `fields` in their order.
pub open spec fn object_text(fields: Seq<(Seq<char>, Seq<char>)>) -> Seq<char> {
    "{"@ + members_text(fields) + "}"@
}

/// Looking up a key after one more field is pushed.
pub proof fn lemma_field_push(fields: Seq<(Seq<char>, Seq<char>)>, m: (Seq<char>, Seq<char>), key: Seq<char>)
    ensures
        field(fields.push(m), key) == (if field(fields, key) is Some {
            field(fields, key)
        } else if m.0 == key {
            Some(m.1)
        } else {
            None
        }),
    decreases fields.len(),
{
    if fields.len() > 0 {
        assert(fields.push(m).drop_first() =~= fields.drop_first().push(m));
        lemma_field_push(fields.drop_first(), m, key);
    } else {
        assert(fields.push(m)[0] == m);
        assert(fields.push(m).drop_first() =~= Seq::<(Seq<char>, Seq<char>)>::empty());
        assert(field(fields.push(m).drop_first(), key) is None);
    }
}

/// Appends a field whose key is not yet there.
pub fn push_field(fields: &mut Vec<(String, String)>, key: &str, raw: String)
    requires
        field(old(fields).deep_view(), key@) is None,
    ensures
        final(fields).deep_view() == old(fields).deep_view().push((key@, raw@)),
        forall|k: Seq<char>| #[trigger] field(final(fields).deep_view(), k) == if k == key@ {
            Some(raw@)
        } else {
            field(old(fields).deep_view(), k)
        },
{
    let ghost before = fields.deep_view();
    fields.push((String::from_str(key), raw));
    assert(fields.deep_view() =~= before.push((key@, raw@)));
    assert forall|k: Seq<char>| #[trigger] field(fields.deep_view(), k) == if k == key@ {
        Some(raw@)
    } else {
        field(before, k)
    } by {
        lemma_field_push(before, (key@, raw@), k);
    }
}

/// Appends a string field.
pub fn push_string(fields: &mut Vec<(String, String)>, key: &str, v: &String)
    requires
        field(old(fields).deep_view(), key@) is None,
    ensures
        final(fields).deep_view() == old(fields).deep_view().push((key@, string_text(v@))),
        string_value(string_text(v@)) == Some(v@),
        forall|k: Seq<char>| #[trigger] field(final(fields).deep_view(), k) == if k == key@ {
            Some(string_text(v@))
        } else {
            field(old(fields).deep_view(), k)
        },
{
    let raw = string_literal(v.as_str());
    push_field(fields, key, raw);
}

/// Appends a boolean field.
pub fn push_bool(fields: &mut Vec<(String, String)>, key: &str, b: bool)
    requires
        field(old(fields).deep_view(), key@) is None,
    ensures
        final(fields).deep_view() == old(fields).deep_view().push((key@, bool_text(b))),
        forall|k: Seq<char>| #[trigger] field(final(fields).deep_view(), k) == if k == key@ {
            Some(bool_text(b))
        } else {
            field(old(fields).deep_view(), k)
        },
{
    let raw = if b { String::from_str("true") } else { String::from_str("false") };
    push_field(fields, key, raw);
}

/// Reads an optional string field.
pub fn read_opt_string(fields: &Vec<(String, String)>, key: &str) -> (r: Option<Option<String>>)
    ensures
        r.deep_view() == opt_string_from(field(fields.deep_view(), key@)),
{
    match find_field(fields, key) {
        None => Some(None),
        Some(raw) => match parse_string(raw.as_str()) {
            Some(s) => Some(Some(s)),
            None => if string_eq(&raw, "null") { Some(None) } else { None },
        },
    }
}

/// Reads an optional boolean field.
pub fn read_opt_bool(fields: &Vec<(String, String)>, key: &str) -> (r: Option<Option<bool>>)
    ensures
        r == opt_bool_from(field(fields.deep_view(), key@)),
{
    match find_field(fields, key) {
        None => Some(None),
        Some(raw) => if string_eq(&raw, "true") {
            Some(Some(true))
        } else if string_eq(&raw, "false") {
            Some(Some(false))
        } else if string_eq(&raw, "null") {
            Some(None)
        } else {
            None
        },
    }
}

/// Reads a list of strings; an absent field is an empty list.
pub fn read_list(fields: &Vec<(String, String)>, key: &str) -> (r: Option<Vec<String>>)
    ensures
        r.deep_view() == list_from(field(fields.deep_view(), key@)),
{
    match find_field(fields, key) {
        None => {
            let v: Vec<String> = Vec::new();
            assert(v.deep_view() =~= Seq::<Seq<char>>::empty());
            Some(v)
        },
        Some(raw) => parse_string_list(raw.as_str()),
    }
}

/// Writes the fields as one object, in their order.
pub fn render_object(fields: &Vec<(String, String)>) -> (r: String)
    ensures
        r@ == object_text(fields.deep_view()),
{
    let mut r = String::from_str("{");
    let mut i: usize = 0;
    while i < fields.len()
        invariant
            i <= fields.len(),
            r@ == "{"@ + members_text(fields.deep_view().take(i as int)),
        decreases fields.len() - i,
    {
        let ghost prev = fields.deep_view().take(i as int);
        let ghost next = fields.deep_view().take(i + 1);
        assert(next.drop_last() =~= prev);
        if i > 0 {
            r.append(",");
        }
        let key = string_literal(fields[i].0.as_str());
        r.append(key.as_str());
        r.append(":");
        r.append(fields[i].1.as_str());
        proof {
            if i == 0 {
                assert(prev.len() == 0);
                assert(members_text(prev) =~= Seq::<char>::empty());
            }
        }
        assert(r@ =~= "{"@ + members_text(next));
        i = i + 1;
    }
    assert(fields.deep_view().take(i as int) =~= fields.deep_view());
    r.append("}");
    r
}

/// Appends a list-of-strings field.
pub fn push_list(fields: &mut Vec<(String, String)>, key: &str, v: &Vec<String>)
    requires
        field(old(fields).deep_view(), key@) is None,
    ensures
        final(fields).deep_view() == old(fields).deep_view().push((key@, string_list_text(v.deep_view()))),
        string_list_value(string_list_text(v.deep_view())) == Some(v.deep_view()),
        forall|k: Seq<char>| #[trigger] field(final(fields).deep_view(), k) == if k == key@ {
            Some(string_list_text(v.deep_view()))
        } else {
            field(old(fields).deep_view(), k)
        },
{
    let raw = string_list_literal(v.as_slice());
    push_field(fields, key, raw);
}

} // verus!
