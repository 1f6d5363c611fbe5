//! The bridge core: validating a raw request into a message and resolving the
//! message to exactly one delivery action.
//!
//! The payload travels through as a type parameter `P`, which the bridge can
//! hold and move but never inspect: payload-agnosticism is enforced by the
//! types, not by discipline.

use vstd::prelude::*;
use vstd::string::StringExecFns;

use crate::errors::{BridgeError, FieldName};

verus! {

/// The reserved target that addresses every open window rather than one of them.
pub open spec fn announce_marker() -> Seq<char> {
    "announce"@
}

/// Where a bridge message is addressed: every open window, or one named window.
pub enum Destination {
    Broadcast,
    Window(String),
}

/// How a target string resolves: the reserved marker broadcasts, any other
/// string names a window. This is the one place the reserved value is compared.
pub open spec fn spec_destination(target: String) -> Destination {
    if target@ == announce_marker() {
        Destination::Broadcast
    } else {
        Destination::Window(target)
    }
}

/// Resolve a target string to its destination.
pub fn classify_target(target: String) -> (d: Destination)
    ensures
        d == spec_destination(target),
{
    let marker: String = String::from_str("announce");
    if target == marker {
        Destination::Broadcast
    } else {
        Destination::Window(target)
    }
}

/// What one read of the wire object yields: each required field as a string
/// when it is present and string-typed, and the optional payload field.
pub struct WireFields<P> {
    /// The `target` field, when present and a string.
    pub target: Option<String>,
    /// The `event` field, when present and a string.
    pub event: Option<String>,
    /// The `payload` field, when present; its contents are opaque.
    pub payload: Option<P>,
}

/// A validated bridge message: the destination decoded once at the boundary,
/// the event name, and the opaque payload to relay.
pub struct BridgeMessage<P> {
    pub dest: Destination,
    pub event: String,
    pub payload: P,
}

/// The payload to deliver: the field's value when one was supplied, otherwise
/// the null value.
pub open spec fn spec_payload_or_null<P>(payload: Option<P>, null: P) -> P {
    match payload {
        Option::Some(p) => p,
        Option::None => null,
    }
}

/// What validating a raw request yields: the checks run in a fixed order —
/// request presence, then `target`, then `event` — and an absent `payload`
/// field is replaced by `null`.
pub open spec fn spec_decode<P>(raw: Option<WireFields<P>>, null: P) -> Result<
    BridgeMessage<P>,
    BridgeError,
> {
    match raw {
        Option::None => Result::Err(BridgeError::MissingPayload),
        Option::Some(f) => match f.target {
            Option::None => Result::Err(BridgeError::MissingField(FieldName::Target)),
            Option::Some(t) => match f.event {
                Option::None => Result::Err(BridgeError::MissingField(FieldName::Event)),
                Option::Some(e) => Result::Ok(
                    BridgeMessage {
                        dest: spec_destination(t),
                        event: e,
                        payload: spec_payload_or_null(f.payload, null),
                    },
                ),
            },
        },
    }
}

/// Validate a raw request into a bridge message.
///
/// The error cases are mutually exclusive and checked in a fixed order: an
/// absent request fails before any field is read, an unusable `target` before
/// `event` is read. An absent `payload` field is not an error: `null` stands
/// in for it.
pub fn decode<P>(raw: Option<WireFields<P>>, null: P) -> (r: Result<BridgeMessage<P>, BridgeError>)
    ensures
        r == spec_decode(raw, null),
        (r == Result::<BridgeMessage<P>, BridgeError>::Err(BridgeError::MissingPayload)) <==> raw
            is None,
        (r == Result::<BridgeMessage<P>, BridgeError>::Err(
            BridgeError::MissingField(FieldName::Target),
        )) <==> (raw matches Some(f) && f.target is None),
        (r == Result::<BridgeMessage<P>, BridgeError>::Err(
            BridgeError::MissingField(FieldName::Event),
        )) <==> (raw matches Some(f) && f.target is Some && f.event is None),
        r is Ok <==> (raw matches Some(f) && f.target is Some && f.event is Some),
{
    match raw {
        Option::None => Result::Err(BridgeError::MissingPayload),
        Option::Some(f) => {
            let WireFields { target, event, payload } = f;
            match target {
                Option::None => Result::Err(BridgeError::MissingField(FieldName::Target)),
                Option::Some(t) => match event {
                    Option::None => Result::Err(BridgeError::MissingField(FieldName::Event)),
                    Option::Some(e) => {
                        let delivered: P = match payload {
                            Option::Some(p) => p,
                            Option::None => null,
                        };
                        Result::Ok(
                            BridgeMessage { dest: classify_target(t), event: e, payload: delivered },
                        )
                    },
                },
            }
        },
    }
}

/// The single window-system call that a validated message asks for.
pub enum EmitAction<P> {
    /// Emit `event` with `payload` to every window open at dispatch time.
    Broadcast { event: String, payload: P },
    /// Emit `event` with `payload` to the one window named `window`.
    Deliver { window: String, event: String, payload: P },
}

/// The action a message resolves to: its destination decides between the two
/// capabilities, and the event and payload are handed over unchanged.
pub open spec fn spec_action<P>(m: BridgeMessage<P>) -> EmitAction<P> {
    match m.dest {
        Destination::Broadcast => EmitAction::Broadcast { event: m.event, payload: m.payload },
        Destination::Window(w) => EmitAction::Deliver {
            window: w,
            event: m.event,
            payload: m.payload,
        },
    }
}

impl<P> BridgeMessage<P> {
    /// Resolve the message to exactly one emit action.
    pub fn into_action(self) -> (a: EmitAction<P>)
        ensures
            a == spec_action(self),
    {
        match self.dest {
            Destination::Broadcast => EmitAction::Broadcast {
                event: self.event,
                payload: self.payload,
            },
            Destination::Window(w) => EmitAction::Deliver {
                window: w,
                event: self.event,
                payload: self.payload,
            },
        }
    }
}

/// The decision half of one dispatch: what validating and routing a raw
/// request yields, before any window-system call is made.
pub open spec fn spec_dispatch<P>(raw: Option<WireFields<P>>, null: P) -> Result<
    EmitAction<P>,
    BridgeError,
> {
    match spec_decode(raw, null) {
        Result::Ok(m) => Result::Ok(spec_action(m)),
        Result::Err(e) => Result::Err(e),
    }
}

/// Validate a raw request and resolve it to the one emit action it asks for.
pub fn dispatch<P>(raw: Option<WireFields<P>>, null: P) -> (r: Result<EmitAction<P>, BridgeError>)
    ensures
        r == spec_dispatch(raw, null),
{
    match decode(raw, null) {
        Result::Ok(m) => Result::Ok(m.into_action()),
        Result::Err(e) => Result::Err(e),
    }
}

/// The prefix under which a failure of the chosen emit call is reported.
pub open spec fn spec_emit_prefix<P>(action: EmitAction<P>) -> Seq<char> {
    match action {
        EmitAction::Broadcast { .. } => "Emit failed: "@,
        EmitAction::Deliver { .. } => "Emit_to failed: "@,
    }
}

/// Surface the outcome of the chosen emit call: success passes through, and
/// any failure the window system reported is wrapped as `DeliveryFailed`,
/// prefixed according to which capability was invoked. The bridge never
/// retries.
pub fn emit_outcome<P>(action: &EmitAction<P>, outcome: Result<(), String>) -> (r: Result<
    (),
    BridgeError,
>)
    ensures
        r is Ok <==> outcome is Ok,
        outcome matches Err(reason) ==> (r matches Err(b) && b matches
            BridgeError::DeliveryFailed(s) && s@ == spec_emit_prefix(*action) + reason@),
{
    match outcome {
        Result::Ok(()) => Result::Ok(()),
        Result::Err(reason) => {
            let prefix: String = match action {
                EmitAction::Broadcast { .. } => String::from_str("Emit failed: "),
                EmitAction::Deliver { .. } => String::from_str("Emit_to failed: "),
            };
            Result::Err(BridgeError::DeliveryFailed(prefix.concat(reason.as_str())))
        },
    }
}

/// Broadcast routing law: a well-formed request whose target is the reserved
/// marker resolves to exactly one action, a broadcast carrying the given event
/// and the given (or defaulted) payload — never a targeted delivery.
pub proof fn lemma_broadcast_route<P>(f: WireFields<P>, null: P)
    requires
        f.target matches Some(t) && t@ == announce_marker(),
        f.event is Some,
    ensures
        spec_dispatch(Some(f), null) matches Ok(a) && a == (EmitAction::Broadcast {
            event: f.event->Some_0,
            payload: spec_payload_or_null(f.payload, null),
        }),
{
}

/// Targeted routing law: a well-formed request whose target is any other
/// string resolves to exactly one action, a delivery to the window of that
/// name carrying the given event and the given (or defaulted) payload — never
/// a broadcast.
pub proof fn lemma_targeted_route<P>(f: WireFields<P>, null: P)
    requires
        f.target matches Some(t) && t@ != announce_marker(),
        f.event is Some,
    ensures
        spec_dispatch(Some(f), null) matches Ok(a) && a == (EmitAction::Deliver {
            window: f.target->Some_0,
            event: f.event->Some_0,
            payload: spec_payload_or_null(f.payload, null),
        }),
{
}

/// Null-payload law: omitting the `payload` field entirely yields the same
/// message — and so the same delivery — as supplying the null value for it.
pub proof fn lemma_absent_payload_is_null<P>(f: WireFields<P>, null: P)
    requires
        f.payload is None,
    ensures
        spec_decode(Some(f), null) == spec_decode(
            Some(WireFields { payload: Some(null), ..f }),
            null,
        ),
        spec_dispatch(Some(f), null) == spec_dispatch(
            Some(WireFields { payload: Some(null), ..f }),
            null,
        ),
{
}

} // verus!
