use crate::config::{CSRConfig, ConfigError};
use vstd::prelude::*;

verus! {

/// Declares serde_json::Value, the decoded JSON document, so that it can
/// stand in signatures; it is opaque here, read only through the wrappers
/// below.
#[verifier::external_type_specification]
#[verifier::external_body]
pub struct ExValue(serde_json::Value);

/// Declares serde_json::Error, the decoder's error type; it is carried only
/// long enough to take its message.
#[verifier::external_type_specification]
#[verifier::external_body]
pub struct ExError(serde_json::Error);

/// Whether a text is a well-formed JSON document. Parsing depends on the
/// characters alone, so success is a function of the text.
pub uninterp spec fn is_json_document(text: Seq<char>) -> bool;

/// The string-valued fields a decoded document holds at its top level: the
/// map from each field name whose value is a string to that string's
/// characters. It is empty when the document is not an object.
pub uninterp spec fn string_fields(v: serde_json::Value) -> Map<Seq<char>, Seq<char>>;

/// The string-valued top-level fields of the document a text decodes to.
/// Decoding depends on the characters alone, so for a well-formed text this
/// is `string_fields` of the decoded value.
pub uninterp spec fn doc_string_fields(text: Seq<char>) -> Map<Seq<char>, Seq<char>>;

/// Relies on serde_json::from_str::<serde_json::Value>: it decodes any
/// well-formed JSON document, whose contents are a function of the text, and
/// returns the decoder's error otherwise.
#[verifier::external_body]
fn parse_json(text: &str) -> (r: Result<serde_json::Value, serde_json::Error>)
    ensures
        r is Ok <==> is_json_document(text@),
        r matches Ok(v) ==> string_fields(v) == doc_string_fields(text@),
{
    serde_json::from_str(text)
}

/// Relies on serde_json::Value::get and Value::as_str: the string value of
/// the named top-level field, or `None` when the document is not an object,
/// has no such field, or the field's value is not a string.
#[verifier::external_body]
fn get_string_field(v: &serde_json::Value, name: &str) -> (r: Option<String>)
    ensures
        r is Some <==> string_fields(*v).contains_key(name@),
        r matches Some(s) ==> s@ == string_fields(*v)[name@],
{
    match v.get(name) {
        Some(field) => field.as_str().map(|s| s.to_string()),
        None => None,
    }
}

/// Relies on serde_json::Error's Display implementation: a description of
/// the decode failure.
#[verifier::external_body]
fn json_error_message(e: &serde_json::Error) -> (r: String) {
    e.to_string()
}

/// True when a field map supplies every required field as non-empty text.
pub open spec fn map_has_required_fields(m: Map<Seq<char>, Seq<char>>) -> bool {
    &&& m.contains_key("country"@) && m["country"@].len() > 0
    &&& m.contains_key("state_or_province"@) && m["state_or_province"@].len() > 0
    &&& m.contains_key("locality"@) && m["locality"@].len() > 0
    &&& m.contains_key("org_name"@) && m["org_name"@].len() > 0
    &&& m.contains_key("common_name"@) && m["common_name"@].len() > 0
}

/// True when the decoded document supplies every required field as a
/// non-empty string.
pub open spec fn has_required_string_fields(v: serde_json::Value) -> bool {
    map_has_required_fields(string_fields(v))
}

/// True when the document a text decodes to supplies every required field
/// as a non-empty string.
pub open spec fn doc_has_required_string_fields(text: Seq<char>) -> bool {
    map_has_required_fields(doc_string_fields(text))
}

/// How a record relates to the field map it was resolved from: required
/// fields taken verbatim, optional fields taken exactly when present.
pub open spec fn resolved_from(c: CSRConfig, m: Map<Seq<char>, Seq<char>>) -> bool {
    &&& c.country@ == m["country"@]
    &&& c.state_or_province@ == m["state_or_province"@]
    &&& c.locality@ == m["locality"@]
    &&& c.org_name@ == m["org_name"@]
    &&& c.common_name@ == m["common_name"@]
    &&& (c.email is Some <==> m.contains_key("email"@))
    &&& (c.email matches Some(e) ==> e@ == m["email"@])
    &&& (c.password is Some <==> m.contains_key("password"@))
    &&& (c.password matches Some(p) ==> p@ == m["password"@])
}

impl CSRConfig {
    /// Build a record from a decoded document. Succeeds exactly when the
    /// document supplies the five required fields as non-empty strings; the
    /// optional fields are taken when present and left absent otherwise.
    pub fn resolve_from_value(v: &serde_json::Value) -> (r: Result<CSRConfig, ConfigError>)
        ensures
            r is Ok <==> has_required_string_fields(*v),
            r matches Ok(c) ==> c.wf() && resolved_from(c, string_fields(*v)),
            r matches Err(e) ==> e is MissingField,
    {
        let country = match get_string_field(v, "country") {
            Some(s) => s,
            None => {
                return Err(ConfigError::MissingField);
            },
        };
        let state_or_province = match get_string_field(v, "state_or_province") {
            Some(s) => s,
            None => {
                return Err(ConfigError::MissingField);
            },
        };
        let locality = match get_string_field(v, "locality") {
            Some(s) => s,
            None => {
                return Err(ConfigError::MissingField);
            },
        };
        let org_name = match get_string_field(v, "org_name") {
            Some(s) => s,
            None => {
                return Err(ConfigError::MissingField);
            },
        };
        let common_name = match get_string_field(v, "common_name") {
            Some(s) => s,
            None => {
                return Err(ConfigError::MissingField);
            },
        };
        if country.as_str().is_empty() || state_or_province.as_str().is_empty()
            || locality.as_str().is_empty() || org_name.as_str().is_empty()
            || common_name.as_str().is_empty() {
            return Err(ConfigError::MissingField);
        }
        let email = get_string_field(v, "email");
        let password = get_string_field(v, "password");
        Ok(CSRConfig {
            country,
            state_or_province,
            locality,
            org_name,
            common_name,
            email,
            password,
        })
    }

    /// File-mode resolution: decode JSON text into a record. Fails with
    /// `MalformedFile` exactly when the text is not a JSON document, with
    /// `MissingField` exactly when the document lacks a required non-empty
    /// string field, and otherwise returns the record the document carries.
    pub fn from_json_text(text: &str) -> (r: Result<CSRConfig, ConfigError>)
        ensures
            r is Ok <==> is_json_document(text@) && doc_has_required_string_fields(text@),
            r matches Ok(c) ==> c.wf() && resolved_from(c, doc_string_fields(text@)),
            (r matches Err(e) && e is MalformedFile) <==> !is_json_document(text@),
            (r matches Err(e) && e is MissingField) <==> is_json_document(text@)
                && !doc_has_required_string_fields(text@),
    {
        let value = match parse_json(text) {
            Ok(v) => v,
            Err(e) => {
                return Err(ConfigError::MalformedFile(json_error_message(&e)));
            },
        };
        Self::resolve_from_value(&value)
    }
}

} // verus!
