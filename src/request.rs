use vstd::prelude::*;
use vstd::string::*;
use vstd::utf8::encode_utf8;

use crate::encoding::{be_bytes, be_u32_bytes, be_u64_bytes};
use crate::ident::{hyphenated, is_version4, random_v4, uuid_text};
use crate::types::Notification;

verus! {

/// One request header: its name and the raw bytes of its value.
#[derive(Clone, Debug)]
pub struct Header {
    pub name: String,
    pub value: Vec<u8>,
}

/// Everything that goes on the wire for one notification.
#[derive(Clone, Debug)]
pub struct Request {
    /// The identifier sent as `apns-id`, and returned on success.
    pub id: u128,
    pub path: String,
    pub headers: Vec<Header>,
    pub body: String,
}

/// Headers as pairs of name and value bytes.
pub open spec fn headers_view(hs: Seq<Header>) -> Seq<(Seq<char>, Seq<u8>)> {
    hs.map_values(|h: Header| (h.name@, h.value@))
}

/// The request path for a device token, used verbatim.
pub open spec fn device_path_text(token: Seq<char>) -> Seq<char> {
    "/3/device/"@ + token
}

/// A header that is present exactly when its value is.
pub open spec fn optional_header(name: Seq<char>, value: Option<Seq<u8>>) -> Seq<
    (Seq<char>, Seq<u8>),
> {
    match value {
        Some(v) => seq![(name, v)],
        None => Seq::empty(),
    }
}

/// The value of `apns-expiration`: eight bytes, most significant first.
pub open spec fn expiration_value(e: Option<u64>) -> Option<Seq<u8>> {
    match e {
        Some(x) => Some(be_bytes(x as nat, 8)),
        None => None,
    }
}

/// The value of `apns-priority`: the priority's code in four bytes.
pub open spec fn priority_value(p: Option<crate::types::Priority>) -> Option<Seq<u8>> {
    match p {
        Some(x) => Some(be_bytes(x.code() as nat, 4)),
        None => None,
    }
}

/// The value of `apns-collapse-id`: the identifier's UTF-8 bytes.
pub open spec fn collapse_value(c: Option<String>) -> Option<Seq<u8>> {
    match c {
        Some(x) => Some(encode_utf8(x@)),
        None => None,
    }
}

/// The headers of the request for `n` under identifier `id`, in order.
pub open spec fn header_list(n: Notification, id: u128) -> Seq<(Seq<char>, Seq<u8>)> {
    seq![("apns-id"@, encode_utf8(hyphenated(id))), ("apns-topic"@, encode_utf8(n.topic@))]
        + optional_header("apns-expiration"@, expiration_value(n.expiration))
        + optional_header("apns-priority"@, priority_value(n.priority))
        + optional_header("apns-collapse-id"@, collapse_value(n.collapse_id))
}

/// The JSON body: the `aps` envelope, and the custom data when present.
pub open spec fn body_text(payload: Seq<char>, data: Option<String>) -> Seq<char> {
    "{\"aps\":"@ + payload + match data {
        Some(d) => ",\"data\":"@ + d@,
        None => Seq::empty(),
    } + "}"@
}

/// The identifier a request carries: the notification's own, else `generated`.
pub open spec fn chosen_id(requested: Option<u128>, generated: u128) -> u128 {
    match requested {
        Some(x) => x,
        None => generated,
    }
}

/// Whether `r` is the request for `n` under identifier `id`.
pub open spec fn request_for(r: Request, n: Notification, id: u128) -> bool {
    &&& r.id == id
    &&& r.path@ == device_path_text(n.device_token@)
    &&& headers_view(r.headers@) == header_list(n, id)
    &&& r.body@ == body_text(n.payload@, n.data)
}

fn header(name: &str, value: Vec<u8>) -> (h: Header)
    ensures
        h.name@ == name@,
        h.value@ == value@,
{
    Header { name: String::from_str(name), value }
}

/// The request path `/3/device/<token>`.
pub fn device_path(token: &str) -> (r: String)
    ensures
        r@ == device_path_text(token@),
{
    let mut p = String::from_str("/3/device/");
    p.append(token);
    p
}

/// The headers for `n` under identifier `id`: `apns-id` and `apns-topic`
/// always, each optional header exactly when its field is present.
pub fn request_headers(n: &Notification, id: u128) -> (r: Vec<Header>)
    ensures
        headers_view(r@) == header_list(*n, id),
{
    let mut hs: Vec<Header> = Vec::new();
    let text = uuid_text(id);
    hs.push(header("apns-id", text.as_str().as_bytes_vec()));
    hs.push(header("apns-topic", n.topic.as_str().as_bytes_vec()));
    assert(headers_view(hs@) =~= seq![
        ("apns-id"@, encode_utf8(hyphenated(id))),
        ("apns-topic"@, encode_utf8(n.topic@)),
    ]);
    let ghost base = headers_view(hs@);
    match n.expiration {
        Some(x) => {
            hs.push(header("apns-expiration", be_u64_bytes(x)));
        },
        None => {},
    }
    let ghost with_exp = base + optional_header("apns-expiration"@, expiration_value(n.expiration));
    assert(headers_view(hs@) =~= with_exp);
    match n.priority {
        Some(p) => {
            hs.push(header("apns-priority", be_u32_bytes(p.to_int())));
        },
        None => {},
    }
    let ghost with_pri = with_exp + optional_header("apns-priority"@, priority_value(n.priority));
    assert(headers_view(hs@) =~= with_pri);
    match &n.collapse_id {
        Some(c) => {
            hs.push(header("apns-collapse-id", c.as_str().as_bytes_vec()));
        },
        None => {},
    }
    assert(headers_view(hs@) =~= with_pri + optional_header(
        "apns-collapse-id"@,
        collapse_value(n.collapse_id),
    ));
    hs
}

/// The JSON body `{"aps":<payload>}`, or `{"aps":<payload>,"data":<data>}`
/// when custom data is present.
pub fn request_body(payload: &str, data: &Option<String>) -> (r: String)
    ensures
        r@ == body_text(payload@, *data),
{
    let mut b = String::from_str("{\"aps\":");
    b.append(payload);
    match data {
        Some(d) => {
            b.append(",\"data\":");
            b.append(d.as_str());
        },
        None => {},
    }
    b.append("}");
    b
}

/// The request for `n`, carrying the notification's own identifier if it has
/// one and `generated` otherwise.
pub fn prepare_request(n: &Notification, generated: u128) -> (r: Request)
    ensures
        request_for(r, *n, chosen_id(n.id, generated)),
{
    let id = match n.id {
        Some(x) => x,
        None => generated,
    };
    Request {
        id,
        path: device_path(n.device_token.as_str()),
        headers: request_headers(n, id),
        body: request_body(n.payload.as_str(), &n.data),
    }
}

/// The request for `n`. A notification without an identifier gets a fresh
/// random version-4 identifier.
pub fn build_request(n: &Notification) -> (r: Request)
    ensures
        request_for(r, *n, r.id),
        n.id matches Some(x) ==> r.id == x,
        n.id is None ==> is_version4(r.id),
{
    match n.id {
        Some(x) => prepare_request(n, x),
        None => prepare_request(n, random_v4()),
    }
}

} // verus!
