//! The requests of the REST API: where each one goes and what it carries.
//! Sending them is left to the caller.

use crate::types::{
    AttachmentAction, DevicesDetails, Message, Organization, Person, Publish, Register,
    RemoteTransportWebSocketServer, Room, Team,
};
use vstd::prelude::*;
use vstd::string::StringExecFns;

verus! {

/// The root of the messaging API.
pub const WEBEX_URI: &'static str = "https://webexapis.com/v1/";

/// The root of the device registry.
pub const DEFAULT_DEVICE_URL: &'static str = "https://wdm-a.wbx2.com/wdm/api/v1";

/// A type that the API serves under an endpoint of its own.
pub trait Gettable {
    /// The endpoint to query, with or without an identifier.
    const API_ENDPOINT: &'static str;
}

impl Gettable for Message {
    const API_ENDPOINT: &'static str = "messages";
}

impl Gettable for Organization {
    const API_ENDPOINT: &'static str = "organizations";
}

impl Gettable for AttachmentAction {
    const API_ENDPOINT: &'static str = "attachment/actions";
}

impl Gettable for Room {
    const API_ENDPOINT: &'static str = "rooms";
}

impl Gettable for Person {
    const API_ENDPOINT: &'static str = "people";
}

impl Gettable for Team {
    const API_ENDPOINT: &'static str = "teams";
}

impl Gettable for DevicesDetails {
    const API_ENDPOINT: &'static str = "devices";
}

/// A list of items as the API returns it.
#[derive(Debug, Clone, PartialEq, Eq)]
pub struct ListResult<T> {
    pub items: Vec<T>,
}

/// The HTTP status of a successful request.
pub const STATUS_OK: u16 = 200;

/// The HTTP status of a missing resource.
pub const STATUS_NOT_FOUND: u16 = 404;

/// The status that a response counts as: success stays success, everything
/// else counts as a missing resource.
pub fn review_status(status: u16) -> (r: u16)
    ensures
        r == if status == STATUS_OK {
            STATUS_OK
        } else {
            STATUS_NOT_FOUND
        },
{
    if status == STATUS_OK {
        STATUS_OK
    } else {
        STATUS_NOT_FOUND
    }
}

/// Whether a status reports success: it lies from 200 to 299.
pub open spec fn is_success_status(status: u16) -> bool {
    200 <= status <= 299
}

/// Whether a request succeeded, by the status of its response.
pub fn is_success(status: u16) -> (r: bool)
    ensures
        r == is_success_status(status),
{
    200 <= status && status <= 299
}

/// The character of a decimal digit.
pub open spec fn digit_char(d: int) -> char {
    if d == 0 {
        '0'
    } else if d == 1 {
        '1'
    } else if d == 2 {
        '2'
    } else if d == 3 {
        '3'
    } else if d == 4 {
        '4'
    } else if d == 5 {
        '5'
    } else if d == 6 {
        '6'
    } else if d == 7 {
        '7'
    } else if d == 8 {
        '8'
    } else {
        '9'
    }
}

/// The decimal digits of `n`, without leading zeros.
pub open spec fn decimal(n: nat) -> Seq<char>
    decreases n,
{
    if n < 10 {
        seq![digit_char(n as int)]
    } else {
        decimal(n / 10).push(digit_char((n % 10) as int))
    }
}

fn digit_text(d: u16) -> (r: &'static str)
    requires
        d < 10,
    ensures
        r@ == seq![digit_char(d as int)],
{
    proof {
        reveal_strlit("0");
        reveal_strlit("1");
        reveal_strlit("2");
        reveal_strlit("3");
        reveal_strlit("4");
        reveal_strlit("5");
        reveal_strlit("6");
        reveal_strlit("7");
        reveal_strlit("8");
        reveal_strlit("9");
    }
    let r = if d == 0 {
        "0"
    } else if d == 1 {
        "1"
    } else if d == 2 {
        "2"
    } else if d == 3 {
        "3"
    } else if d == 4 {
        "4"
    } else if d == 5 {
        "5"
    } else if d == 6 {
        "6"
    } else if d == 7 {
        "7"
    } else if d == 8 {
        "8"
    } else {
        "9"
    };
    assert(r@ =~= seq![digit_char(d as int)]);
    r
}

/// The decimal text of `n`.
pub fn decimal_text(n: u16) -> (r: String)
    ensures
        r@ == decimal(n as nat),
    decreases n,
{
    if n < 10 {
        digit_text(n).to_owned()
    } else {
        let mut r = decimal_text(n / 10);
        r.append(digit_text(n % 10));
        assert(r@ =~= decimal(n as nat));
        r
    }
}

/// The URL under which the messaging API serves `T`.
pub fn endpoint_url<T: Gettable>() -> (r: String)
    ensures
        r@ == WEBEX_URI@ + T::API_ENDPOINT@,
{
    let mut r = WEBEX_URI.to_owned();
    r.append(T::API_ENDPOINT);
    r
}

/// The URL under which the messaging API serves the `T` called `id`.
pub fn item_url<T: Gettable>(id: &str) -> (r: String)
    ensures
        r@ == WEBEX_URI@ + T::API_ENDPOINT@ + "/"@ + id@,
{
    let mut r = endpoint_url::<T>();
    r.append("/");
    r.append(id);
    r
}

/// The URL that messages are posted to.
pub fn messages_url() -> (r: String)
    ensures
        r@ == WEBEX_URI@ + Message::API_ENDPOINT@,
{
    endpoint_url::<Message>()
}

/// The URL of the message called `message_id`.
pub fn message_details_url(message_id: &str) -> (r: String)
    ensures
        r@ == WEBEX_URI@ + Message::API_ENDPOINT@ + "/"@ + message_id@,
{
    item_url::<Message>(message_id)
}

/// The URL of the devices of the device registry.
pub fn devices_url() -> (r: String)
    ensures
        r@ == DEFAULT_DEVICE_URL@ + "/"@ + DevicesDetails::API_ENDPOINT@,
{
    let mut r = DEFAULT_DEVICE_URL.to_owned();
    r.append("/");
    r.append(DevicesDetails::API_ENDPOINT);
    r
}

/// The URL of an endpoint of a transport server.
pub open spec fn transport_url_text(host: Seq<char>, port: u16, endpoint: Seq<char>) -> Seq<char> {
    "http://"@ + host + ":"@ + decimal(port as nat) + "/"@ + endpoint
}

/// The URL of `endpoint` on the transport server.
pub fn transport_url(endpoint: &str, websocket_server: &RemoteTransportWebSocketServer) -> (r:
    String)
    ensures
        r@ == transport_url_text(websocket_server.host@, websocket_server.port, endpoint@),
{
    let mut r = "http://".to_owned();
    r.append(websocket_server.host.as_str());
    r.append(":");
    let port = decimal_text(websocket_server.port);
    r.append(port.as_str());
    r.append("/");
    r.append(endpoint);
    r
}

/// The request that registers the server's user: where it goes and what it
/// carries.
pub fn register(endpoint: &str, websocket_server: &RemoteTransportWebSocketServer) -> (r: (
    String,
    Register,
))
    ensures
        r.0@ == transport_url_text(websocket_server.host@, websocket_server.port, endpoint@),
        r.1.user_id == websocket_server.user_id,
        r.1.groups@ == websocket_server.subscription_groups@,
{
    let url = transport_url(endpoint, websocket_server);
    let body = Register {
        user_id: websocket_server.user_id,
        groups: clone_strings(&websocket_server.subscription_groups),
    };
    (url, body)
}

/// The request that publishes `message` to `group`: where it goes and what
/// it carries.
pub fn publish(
    endpoint: &str,
    group: String,
    message: String,
    websocket_server: &RemoteTransportWebSocketServer,
) -> (r: (String, Publish))
    ensures
        r.0@ == transport_url_text(websocket_server.host@, websocket_server.port, endpoint@),
        r.1 == (Publish { user_id: websocket_server.user_id, group, message }),
{
    let url = transport_url(endpoint, websocket_server);
    (url, Publish { user_id: websocket_server.user_id, group, message })
}

/// A copy of a list of strings.
pub fn clone_strings(v: &Vec<String>) -> (r: Vec<String>)
    ensures
        r@ == v@,
{
    let mut r: Vec<String> = Vec::new();
    let mut i: usize = 0;
    while i < v.len()
        invariant
            i <= v.len(),
            r@ == v@.subrange(0, i as int),
        decreases v.len() - i,
    {
        r.push(v[i].clone());
        i = i + 1;
    }
    assert(r@ == v@);
    r
}

} // verus!
