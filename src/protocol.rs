use vstd::prelude::*;

verus! {

/// A JSON value from serde_json, carried through routing without being read.
#[verifier::external_type_specification]
#[verifier::external_body]
pub struct ExValue(serde_json::Value);

/// The messages exchanged over a connection. On the wire each is the object
/// `{"type": NAME, "payload": {...}}` with NAME one of `IDENTIFY`, `SIGNAL`,
/// `AUTHENTICATED`, `PEER_OFFLINE`, `ERROR`; identities are the 128 bits of a
/// UUID.
#[derive(Debug, PartialEq)]
pub enum KodaSignal {
    /// Client to server: the bearer token to authenticate with.
    Identify { token: String },
    /// Either way: an opaque payload for `target_id`. The server sets
    /// `sender_id` to the authenticated sender before it forwards.
    Signal { target_id: u128, sender_id: Option<u128>, data: serde_json::Value },
    /// Server to client: the connection is now authenticated as `user_id`.
    Authenticated { user_id: u128 },
    /// Server to client: `peer_id` had no live connection.
    PeerOffline { peer_id: u128 },
    /// Server to client: a request was rejected.
    Error { message: String },
}

/// Label of the error sent for a `Signal` from an unauthenticated connection.
pub open spec fn identify_required_label() -> Seq<char> {
    "IDENTIFY_REQUIRED"@
}

/// Label of the error sent for a frame that does not decode.
pub open spec fn malformed_label() -> Seq<char> {
    "MALFORMATTED_JSON"@
}

/// Whether `s` is an `Error` whose message is `label`.
pub open spec fn is_error_with(s: KodaSignal, label: Seq<char>) -> bool {
    match s {
        KodaSignal::Error { message } => message@ == label,
        _ => false,
    }
}

impl KodaSignal {
    /// The `Error` sent for a `Signal` from an unauthenticated connection.
    pub fn identify_required() -> (r: KodaSignal)
        ensures
            is_error_with(r, identify_required_label()),
    {
        KodaSignal::Error { message: "IDENTIFY_REQUIRED".to_string() }
    }

    /// The `Error` sent for a frame that does not decode.
    pub fn malformed() -> (r: KodaSignal)
        ensures
            is_error_with(r, malformed_label()),
    {
        KodaSignal::Error { message: "MALFORMATTED_JSON".to_string() }
    }
}

} // verus!
