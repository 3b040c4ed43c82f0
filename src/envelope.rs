use vstd::prelude::*;

use crate::auth::ClientError;
use crate::requests::{TumblrResponse, TumblrResponseMeta};

verus! {

#[verifier::external_type_specification]
#[verifier::external_body]
pub struct ExJsonValue(serde_json::Value);

#[verifier::external_type_specification]
#[verifier::external_body]
pub struct ExJsonError(serde_json::Error);

/// A JSON document as plain values. Object members keep serde_json's order
/// and have distinct keys; a number is an unsigned integer, a negative
/// integer, or otherwise a float kept as the text serde_json writes for it.
#[derive(Debug)]
pub enum JsonValue {
    Null,
    Bool(bool),
    UInt(u64),
    NegInt(i64),
    Float(String),
    Text(String),
    Array(Vec<JsonValue>),
    Object(Vec<(String, JsonValue)>),
}

/// The document serde_json reads from `s`, if it reads one.
pub uninterp spec fn json_of(s: Seq<char>) -> Option<JsonValue>;

/// Relies on serde_json::from_str into serde_json::Value: the document that
/// `s` holds, or serde_json's error when it holds none.
#[verifier::external_body]
fn parse_json(s: &str) -> (r: Result<JsonValue, serde_json::Error>)
    ensures
        r is Ok <==> json_of(s@) is Some,
        r matches Ok(v) ==> json_of(s@) == Some(v),
{
    serde_json::from_str::<serde_json::Value>(s).map(json_value_from)
}

/// Moves a serde_json::Value into the library's JSON type, variant by
/// variant; a number goes by serde_json::Number::as_u64, as_i64 and its text.
#[verifier::external_body]
fn json_value_from(v: serde_json::Value) -> JsonValue {
    match v {
        serde_json::Value::Null => JsonValue::Null,
        serde_json::Value::Bool(b) => JsonValue::Bool(b),
        serde_json::Value::Number(n) => match (n.as_u64(), n.as_i64()) {
            (Some(u), _) => JsonValue::UInt(u),
            (None, Some(i)) => JsonValue::NegInt(i),
            _ => JsonValue::Float(n.to_string()),
        },
        serde_json::Value::String(s) => JsonValue::Text(s),
        serde_json::Value::Array(a) => JsonValue::Array(a.into_iter().map(json_value_from).collect()),
        serde_json::Value::Object(m) => JsonValue::Object(m.into_iter().map(|(k, x)| (k, json_value_from(x))).collect()),
    }
}

/// Relies on serde_json's Display for its error: a description of the
/// failure and its position.
#[verifier::external_body]
fn json_error_text(e: &serde_json::Error) -> String {
    e.to_string()
}

/// The value of the first member named `key`.
pub open spec fn member(m: Seq<(String, JsonValue)>, key: Seq<char>) -> Option<JsonValue>
    decreases m.len(),
{
    if m.len() == 0 {
        None
    } else if m[0].0@ == key {
        Some(m[0].1)
    } else {
        member(m.drop_first(), key)
    }
}

/// The status and message of an envelope: the document is an object whose
/// `meta` member is an object with `status`, an unsigned integer of at most
/// 65535, and `msg`, a string, and which has a `response` member. Other
/// members are ignored.
pub open spec fn envelope_fields(j: JsonValue) -> Option<(u16, Seq<char>)> {
    match j {
        JsonValue::Object(top) => match (member(top@, "meta"@), member(top@, "response"@)) {
            (Some(JsonValue::Object(meta)), Some(_)) => match (
                member(meta@, "status"@),
                member(meta@, "msg"@),
            ) {
                (Some(JsonValue::UInt(st)), Some(JsonValue::Text(msg))) => if st <= 65535 {
                    Some((st as u16, msg@))
                } else {
                    None
                },
                _ => None,
            },
            _ => None,
        },
        _ => None,
    }
}

/// The payload of a document: its `response` member.
pub open spec fn envelope_payload(j: JsonValue) -> Option<JsonValue> {
    match j {
        JsonValue::Object(top) => member(top@, "response"@),
        _ => None,
    }
}

fn find_member(m: &Vec<(String, JsonValue)>, key: &String) -> (r: Option<usize>)
    ensures
        match r {
            Some(i) => i < m@.len() && m@[i as int].0@ == key@ && member(m@, key@) == Some(
                m@[i as int].1,
            ),
            None => member(m@, key@) is None,
        },
{
    let mut i: usize = 0;
    assert(m@.subrange(0, m@.len() as int) =~= m@);
    while i < m.len()
        invariant
            i <= m@.len(),
            member(m@, key@) == member(m@.subrange(i as int, m@.len() as int), key@),
        decreases m@.len() - i,
    {
        let ghost rest = m@.subrange(i as int, m@.len() as int);
        assert(rest.drop_first() =~= m@.subrange(i + 1, m@.len() as int));
        assert(rest[0] == m@[i as int]);
        if m[i].0 == *key {
            return Some(i);
        }
        i = i + 1;
    }
    None
}

/// Why a body is not a response envelope.
#[derive(Debug)]
pub enum EnvelopeError {
    /// The body is not JSON; serde_json's description.
    NotJson(String),
    /// The body is JSON without `meta.status` as an integer of at most
    /// 65535, `meta.msg` as a string, or a `response` member.
    BadShape,
}

impl EnvelopeError {
    /// A description of the failure.
    pub fn describe(&self) -> (r: String)
        ensures
            self matches EnvelopeError::NotJson(m) ==> r == m,
            self is BadShape ==> r@ == "body is not a response envelope"@,
    {
        match self {
            EnvelopeError::NotJson(m) => m.clone(),
            EnvelopeError::BadShape => "body is not a response envelope".to_owned(),
        }
    }
}

/// Reads a body as the platform's envelope. It succeeds exactly when the
/// body is a JSON document with the envelope's fields, and then returns its
/// status, message and payload.
pub fn parse_envelope(body: &str) -> (r: Result<TumblrResponse<JsonValue>, EnvelopeError>)
    ensures
        json_of(body@) is None <==> r matches Err(EnvelopeError::NotJson(_)),
        r is Ok <==> (json_of(body@) matches Some(j) && envelope_fields(j) is Some),
        r matches Ok(e) ==> envelope_fields(json_of(body@)->Some_0) == Some(
            (e.meta.status, e.meta.msg@),
        ),
        r matches Ok(e) ==> envelope_payload(json_of(body@)->Some_0) == Some(e.response),
{
    let v = match parse_json(body) {
        Ok(v) => v,
        Err(e) => return Err(EnvelopeError::NotJson(json_error_text(&e))),
    };
    let mut top = match v {
        JsonValue::Object(top) => top,
        _ => return Err(EnvelopeError::BadShape),
    };
    let mi = match find_member(&top, &"meta".to_owned()) {
        Some(mi) => mi,
        None => return Err(EnvelopeError::BadShape),
    };
    let ri = match find_member(&top, &"response".to_owned()) {
        Some(ri) => ri,
        None => return Err(EnvelopeError::BadShape),
    };
    let (status, msg) = match &top[mi].1 {
        JsonValue::Object(meta) => {
            let st = match find_member(meta, &"status".to_owned()) {
                Some(si) => match &meta[si].1 {
                    JsonValue::UInt(u) => Some(*u),
                    _ => None,
                },
                None => None,
            };
            let ms = match find_member(meta, &"msg".to_owned()) {
                Some(ti) => match &meta[ti].1 {
                    JsonValue::Text(t) => Some(t.clone()),
                    _ => None,
                },
                None => None,
            };
            match (st, ms) {
                (Some(st), Some(ms)) => {
                    if st <= 65535 {
                        (st as u16, ms)
                    } else {
                        return Err(EnvelopeError::BadShape);
                    }
                },
                _ => return Err(EnvelopeError::BadShape),
            }
        },
        _ => return Err(EnvelopeError::BadShape),
    };
    let (_, response) = top.remove(ri);
    Ok(TumblrResponse { meta: TumblrResponseMeta { status, msg }, response })
}

/// The typed half of a send: the transport's outcome, then the envelope
/// read from its body. A body that is not an envelope fails with
/// `Deserialize`, which keeps the body; the raw outcome is the body itself.
pub fn parse_response(raw: Result<String, ClientError>) -> (r: Result<
    TumblrResponse<JsonValue>,
    ClientError,
>)
    ensures
        match raw {
            Err(e) => r == Err::<TumblrResponse<JsonValue>, ClientError>(e),
            Ok(body) => {
                &&& r is Ok <==> (json_of(body@) matches Some(j) && envelope_fields(j) is Some)
                &&& r matches Ok(e) ==> envelope_fields(json_of(body@)->Some_0) == Some(
                    (e.meta.status, e.meta.msg@),
                )
                &&& r matches Ok(e) ==> envelope_payload(json_of(body@)->Some_0) == Some(e.response)
                &&& r is Err ==> (r matches Err(ClientError::Deserialize { body: b, .. }) && b == body)
            },
        },
{
    match raw {
        Err(e) => Err(e),
        Ok(body) => match parse_envelope(body.as_str()) {
            Ok(env) => Ok(env),
            Err(e) => Err(ClientError::Deserialize { message: e.describe(), body }),
        },
    }
}

} // verus!
