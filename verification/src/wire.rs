//! The boundary to the JSON decoder. Responses arrive as bytes; the
//! functions here hand them to serde_json and return plain values. Each
//! result is a function of the input text alone, so it carries an
//! uninterpreted name that the callers' contracts are stated over.

use serde::de::Error as DeError;
use serde_json::Value;

use vstd::prelude::*;
use vstd::utf8::valid_utf8;
use vstd::string::StringSliceAdditionalSpecFns;

use crate::dto::{result_entry_view, DeviceDto};

verus! {

/// What serde_json finds under `key` when the text parses as a JSON object
/// whose `key` member is a string; `None` on any parse or shape failure.
pub uninterp spec fn string_field_of(text: Seq<char>, key: Seq<char>) -> Option<Seq<char>>;

/// The envelope `{"R":<string>,"result":{<name>: <number|null>, ...}}` of the
/// text, if it has that shape: the discriminator, and the result entries in
/// the decoder's order, each value as its decimal text or `None` for null.
pub uninterp spec fn result_response_of(text: Seq<char>) -> Option<
    (Seq<char>, Seq<(Seq<char>, Option<Seq<char>>)>),
>;

/// The envelope `{"R":<string>,"devices":[{...}, ...]}` of the text, if it
/// has that shape: the discriminator, and each device of the array, in
/// order, as (id, network, name, description, type).
pub uninterp spec fn device_list_of(text: Seq<char>) -> Option<
    (Seq<char>, Seq<(u32, u32, Seq<char>, Seq<char>, Seq<char>)>),
>;

/// View of a parsed device, in the order of `device_list_of`.
pub open spec fn device_view(d: DeviceDto) -> (u32, u32, Seq<char>, Seq<char>, Seq<char>) {
    (d.id, d.network, d.name@, d.description@, d.device_type@)
}

#[verifier::external_type_specification]
#[verifier::external_body]
pub struct ExJsonError(serde_json::Error);

#[verifier::external_type_specification]
#[verifier::external_body]
pub struct ExUtf8Error(core::str::Utf8Error);

#[verifier::external_type_specification]
#[verifier::external_body]
pub struct ExIoError(std::io::Error);

/// Relies on core::str::from_utf8: it succeeds exactly on valid UTF-8, and
/// the returned slice views the given bytes.
#[verifier::external_body]
pub(crate) fn bytes_to_str(b: &[u8]) -> (r: Result<&str, core::str::Utf8Error>)
    ensures
        r is Ok <==> valid_utf8(b@),
        r matches Ok(s) ==> s.spec_bytes() == b@,
{
    core::str::from_utf8(b)
}

/// Relies on serde_json::from_str and serde_json::Value::get: parses the
/// text as JSON and takes the string member under `key`. A parse failure or
/// a missing or non-string member is exactly the `None` of `string_field_of`.
#[verifier::external_body]
pub(crate) fn parse_string_field(text: &str, key: &str) -> (r: Result<String, serde_json::Error>)
    ensures
        r is Ok <==> string_field_of(text@, key@) is Some,
        r matches Ok(v) ==> string_field_of(text@, key@) == Some(v@),
{
    let value: Value = serde_json::from_str(text)?;
    match value.get(key) {
        Some(Value::String(s)) => Ok(s.clone()),
        _ => Err(DeError::custom("expected a string member")),
    }
}

/// Relies on serde_json::from_str and the serde_json::Value accessors:
/// parses `{"R":<string>,"result":{<name>: <number|null>, ...}}`. Entries
/// come back in the decoder's map order, each number as its decimal text.
/// Any parse or shape failure is exactly the `None` of `result_response_of`.
#[verifier::external_body]
pub(crate) fn parse_result_response(text: &str) -> (r: Result<
    (String, Vec<(String, Option<String>)>),
    serde_json::Error,
>)
    ensures
        r is Ok <==> result_response_of(text@) is Some,
        r matches Ok(v) ==> result_response_of(text@) == Some(
            (v.0@, v.1@.map_values(|e: (String, Option<String>)| result_entry_view(e))),
        ),
{
    let value: Value = serde_json::from_str(text)?;
    let d = match value.get("R") { Some(Value::String(s)) => s.clone(), _ => return Err(DeError::custom("R")) };
    let m = match value.get("result") { Some(Value::Object(m)) => m, _ => return Err(DeError::custom("result")) };
    let mut out = Vec::new();
    for (k, v) in m {
        let n = match v { Value::Null => None, Value::Number(n) => Some(n.to_string()), _ => return Err(DeError::custom("value")) };
        out.push((k.clone(), n));
    }
    Ok((d, out))
}

/// Relies on serde_json::from_str, the serde_json::Value accessors and
/// Value's string indexing (which yields null for an absent or mistyped
/// member): parses `{"R":<string>,"devices":[{...}, ...]}`, each device an
/// object with numeric `id` and `network` and string `name`, `description`
/// and `type`. Any parse or shape failure, of the envelope or of a device,
/// is exactly the `None` of `device_list_of`.
#[verifier::external_body]
pub(crate) fn parse_device_list_response(text: &str) -> (r: Result<
    (String, Vec<DeviceDto>),
    serde_json::Error,
>)
    ensures
        r is Ok <==> device_list_of(text@) is Some,
        r matches Ok(v) ==> device_list_of(text@) == Some(
            (v.0@, v.1@.map_values(|d: DeviceDto| device_view(d))),
        ),
{
    let v: Value = serde_json::from_str(text)?;
    let e = || DeError::custom("device list shape");
    let d = v["R"].as_str().ok_or_else(e)?.to_owned();
    let a = v["devices"].as_array().ok_or_else(e)?;
    let mut out = Vec::new();
    for x in a {
        let s = |k: &str| x[k].as_str().map(String::from).ok_or_else(e);
        let n = |k: &str| x[k].as_u64().and_then(|u| u32::try_from(u).ok()).ok_or_else(e);
        out.push(DeviceDto { id: n("id")?, network: n("network")?, name: s("name")?, description: s("description")?, device_type: s("type")? });
    }
    Ok((d, out))
}

} // verus!
