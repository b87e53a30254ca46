use vstd::prelude::*;
use vstd::string::*;

verus! {

/// A well-formed reply whose status is not 200.
#[derive(Clone, Debug)]
pub struct ApiError {
    pub status: u16,
    /// The service's reason code, or `unknown` when the body did not give one.
    pub reason: String,
}

/// Why a send failed.
#[derive(Clone, Debug)]
pub enum SendError {
    /// Writing the request or reading the reply failed.
    Transport(String),
    /// The gateway answered with a status other than 200.
    Api(ApiError),
}

/// Why a connection could not be set up.
#[derive(Clone, Debug)]
pub enum SetupError {
    /// The certificate or key could not be loaded, or the TLS context built.
    Config(String),
    /// Connecting, the TLS handshake or the HTTP/2 preface failed.
    Connection(String),
}

/// The `reason` string that a reply body holds, if it is a JSON object with a
/// string field of that name.
pub uninterp spec fn reason_field(body: Seq<u8>) -> Option<Seq<char>>;

/// Relies on `serde_json::from_slice` to parse the body as a JSON value, and
/// on `serde_json::Value::get` and `as_str` to pick its `reason` string.
#[verifier::external_body]
fn decode_reason(body: &[u8]) -> (r: Option<String>)
    ensures
        r is Some <==> reason_field(body@) is Some,
        r matches Some(s) ==> reason_field(body@) == Some(s@),
{
    match serde_json::from_slice::<serde_json::Value>(body) {
        Ok(v) => v.get("reason").and_then(|x| x.as_str()).map(|s| s.to_string()),
        Err(_) => None,
    }
}

/// The text of an optional string.
pub open spec fn text_of(s: Option<String>) -> Option<Seq<char>> {
    match s {
        Some(t) => Some(t@),
        None => None,
    }
}

/// The reason reported for a failed request: the given one, else `unknown`.
pub open spec fn reason_or_unknown(reason: Option<Seq<char>>) -> Seq<char> {
    match reason {
        Some(s) => s,
        None => "unknown"@,
    }
}

/// Whether `r` is the outcome of a reply with `status` to the request with
/// identifier `id`, where the body gave `reason`.
pub open spec fn outcome_of(
    r: Result<u128, SendError>,
    id: u128,
    status: u16,
    reason: Option<Seq<char>>,
) -> bool {
    if status == 200 {
        r == Ok::<u128, SendError>(id)
    } else {
        r matches Err(SendError::Api(e)) && e.status == status && e.reason@ == reason_or_unknown(
            reason,
        )
    }
}

/// The outcome of a reply: status 200 gives the identifier back; any other
/// status is an API error that carries the status and the reason, or
/// `unknown` when there is none.
pub fn outcome(id: u128, status: u16, reason: Option<String>) -> (r: Result<u128, SendError>)
    ensures
        outcome_of(r, id, status, text_of(reason)),
{
    if status == 200 {
        Ok(id)
    } else {
        let reason = match reason {
            Some(s) => s,
            None => String::from_str("unknown"),
        };
        Err(SendError::Api(ApiError { status, reason }))
    }
}

/// The outcome of a reply with `status` and `body`. A 200 reply succeeds
/// whatever its body; otherwise the body's `reason` is read, and a body that
/// is not such JSON gives `unknown`.
pub fn interpret_response(id: u128, status: u16, body: &[u8]) -> (r: Result<u128, SendError>)
    ensures
        outcome_of(r, id, status, reason_field(body@)),
{
    if status == 200 {
        Ok(id)
    } else {
        outcome(id, status, decode_reason(body))
    }
}

} // verus!
