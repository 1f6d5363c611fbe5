//! The wire boundary: reading the fields of an incoming `serde_json::Value`
//! and decoding it into a bridge message.
//!
//! Only the field lookups themselves are trusted; everything downstream of
//! them is the verified core of `crate::message`. A payload `Value` is carried
//! through opaquely and never inspected.

use vstd::prelude::*;

use crate::errors::{BridgeError, FieldName};
use crate::message::{
    announce_marker, decode, BridgeMessage, Destination, EmitAction, WireFields,
};

verus! {

/// `serde_json::Value`, declared so that values of it can be held and passed
/// through; the bridge never looks inside one.
#[verifier::external_type_specification]
#[verifier::external_body]
pub struct ExValue(serde_json::Value);

/// The string-valued object fields of `v`: the map from field name to string
/// content, over exactly those fields of the JSON object `v` that hold a
/// string (empty when `v` is not an object). A function of the value alone.
pub uninterp spec fn str_fields_of(v: serde_json::Value) -> Map<Seq<char>, Seq<char>>;

/// The names of all object fields of `v`, of whatever type (empty when `v` is
/// not an object). A function of the value alone.
pub uninterp spec fn fields_of(v: serde_json::Value) -> Set<Seq<char>>;

/// Relies on `serde_json::Value::get` and `Value::as_str`: `get` on a string
/// index returns the field of a JSON object under that name, `None` for a
/// missing field or a non-object, and `as_str` returns the content of a string
/// value, `None` for every other value.
#[verifier::external_body]
fn str_field(v: &serde_json::Value, name: &str) -> (r: Option<String>)
    ensures
        r matches Some(s) ==> str_fields_of(*v).contains_key(name@) && s@ == str_fields_of(
            *v,
        )[name@],
        r is None ==> !str_fields_of(*v).contains_key(name@),
{
    v.get(name).and_then(|f| f.as_str()).map(|s| s.to_owned())
}

/// Relies on `serde_json::Value::get` and `Value::clone`: a copy of the object
/// field `name` of `v`, present exactly when `v` is a JSON object with such a
/// field.
#[verifier::external_body]
fn field(v: &serde_json::Value, name: &str) -> (r: Option<serde_json::Value>)
    ensures
        r is Some <==> fields_of(*v).contains(name@),
{
    v.get(name).cloned()
}

/// Relies on `serde_json::Value::Null` being the JSON null value.
#[verifier::external_body]
fn null_value() -> serde_json::Value {
    serde_json::Value::Null
}

/// Decode an incoming request into a bridge message.
///
/// The checks run in the fixed order of the verified core: an absent request
/// fails with `MissingPayload` before any field is read; a `target` field that
/// is absent or not a string fails next; then `event` likewise; a well-formed
/// request yields the message, its target resolved to a destination once, its
/// `payload` field — JSON null standing in for an absent one — untouched.
pub fn decode_request(raw: Option<serde_json::Value>) -> (r: Result<
    BridgeMessage<serde_json::Value>,
    BridgeError,
>)
    ensures
        raw is None <==> (r matches Err(e) && e == BridgeError::MissingPayload),
        raw matches Some(v) ==> {
            let named = str_fields_of(v);
            &&& (r matches Err(e) && e == BridgeError::MissingField(FieldName::Target)) <==> !named.contains_key("target"@)
            &&& (r matches Err(e) && e == BridgeError::MissingField(FieldName::Event)) <==> (
            named.contains_key("target"@) && !named.contains_key("event"@))
            &&& r is Ok <==> (named.contains_key("target"@) && named.contains_key("event"@))
            &&& r matches Ok(m) ==> {
                &&& m.event@ == named["event"@]
                &&& named["target"@] == announce_marker() ==> m.dest == Destination::Broadcast
                &&& named["target"@] != announce_marker() ==> (m.dest matches Destination::Window(w)
                    && w@ == named["target"@])
            }
        },
{
    match raw {
        Option::None => Result::Err(BridgeError::MissingPayload),
        Option::Some(v) => {
            let fields = WireFields::<serde_json::Value> {
                target: str_field(&v, "target"),
                event: str_field(&v, "event"),
                payload: field(&v, "payload"),
            };
            decode(Some(fields), null_value())
        },
    }
}

/// Validate an incoming request and resolve it to the one emit action it asks
/// for: a broadcast when the target is the reserved marker, a targeted
/// delivery to the named window otherwise.
pub fn route_request(raw: Option<serde_json::Value>) -> (r: Result<
    EmitAction<serde_json::Value>,
    BridgeError,
>)
    ensures
        raw is None <==> (r matches Err(e) && e == BridgeError::MissingPayload),
        raw matches Some(v) ==> {
            let named = str_fields_of(v);
            &&& (r matches Err(e) && e == BridgeError::MissingField(FieldName::Target)) <==> !named.contains_key("target"@)
            &&& (r matches Err(e) && e == BridgeError::MissingField(FieldName::Event)) <==> (
            named.contains_key("target"@) && !named.contains_key("event"@))
            &&& r is Ok <==> (named.contains_key("target"@) && named.contains_key("event"@))
            &&& r matches Ok(a) ==> {
                &&& named["target"@] == announce_marker() ==> (a matches EmitAction::Broadcast {
                    event,
                    ..
                } && event@ == named["event"@])
                &&& named["target"@] != announce_marker() ==> (a matches EmitAction::Deliver {
                    window,
                    event,
                    ..
                } && window@ == named["target"@] && event@ == named["event"@])
            }
        },
{
    match decode_request(raw) {
        Result::Ok(m) => Result::Ok(m.into_action()),
        Result::Err(e) => Result::Err(e),
    }
}

} // verus!
