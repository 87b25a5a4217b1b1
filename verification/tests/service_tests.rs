use rusty_webex::service::{
    decimal_text, devices_url, endpoint_url, is_success, item_url, message_details_url,
    messages_url, publish, register, review_status, transport_url, Gettable, ListResult,
    DEFAULT_DEVICE_URL, STATUS_NOT_FOUND, STATUS_OK, WEBEX_URI,
};
use rusty_webex::types::{
    AttachmentAction, DevicesDetails, Message, Organization, Person, Publish, Register,
    RemoteTransportWebSocketServer, Room, Team,
};
use rusty_webex::websocket::{ConnectionState, TransportWebSocketClient};

fn server() -> RemoteTransportWebSocketServer {
    RemoteTransportWebSocketServer {
        host: "localhost".to_string(),
        port: 8080,
        user_id: 7,
        subscription_groups: vec!["cats".to_string(), "dogs".to_string()],
    }
}

#[test]
fn status_review_keeps_success_only() {
    assert_eq!(review_status(200), 200);
    assert_eq!(review_status(404), 404);
    assert_eq!(review_status(500), 404);
    assert_eq!(review_status(201), 404);
    assert_eq!(review_status(0), 404);
    assert_eq!(STATUS_OK, 200);
    assert_eq!(STATUS_NOT_FOUND, 404);
}

#[test]
fn endpoints_of_the_api() {
    assert_eq!(<Message as Gettable>::API_ENDPOINT, "messages");
    assert_eq!(<Organization as Gettable>::API_ENDPOINT, "organizations");
    assert_eq!(<AttachmentAction as Gettable>::API_ENDPOINT, "attachment/actions");
    assert_eq!(<Room as Gettable>::API_ENDPOINT, "rooms");
    assert_eq!(<Person as Gettable>::API_ENDPOINT, "people");
    assert_eq!(<Team as Gettable>::API_ENDPOINT, "teams");
    assert_eq!(<DevicesDetails as Gettable>::API_ENDPOINT, "devices");
}

#[test]
fn urls_of_the_api() {
    assert_eq!(WEBEX_URI, "https://webexapis.com/v1/");
    assert_eq!(DEFAULT_DEVICE_URL, "https://wdm-a.wbx2.com/wdm/api/v1");
    assert_eq!(messages_url(), "https://webexapis.com/v1/messages");
    assert_eq!(message_details_url("abc"), "https://webexapis.com/v1/messages/abc");
    assert_eq!(devices_url(), "https://wdm-a.wbx2.com/wdm/api/v1/devices");
    assert_eq!(endpoint_url::<Room>(), "https://webexapis.com/v1/rooms");
    assert_eq!(item_url::<Person>("p1"), "https://webexapis.com/v1/people/p1");
}

#[test]
fn decimal_text_of_ports() {
    assert_eq!(decimal_text(0), "0");
    assert_eq!(decimal_text(7), "7");
    assert_eq!(decimal_text(10), "10");
    assert_eq!(decimal_text(443), "443");
    assert_eq!(decimal_text(8080), "8080");
    assert_eq!(decimal_text(65535), "65535");
    let mut n: u16 = 0;
    loop {
        assert_eq!(decimal_text(n), n.to_string());
        if n == u16::MAX {
            break;
        }
        n += 1;
    }
}

#[test]
fn transport_url_names_host_port_and_endpoint() {
    assert_eq!(transport_url("register", &server()), "http://localhost:8080/register");
    assert_eq!(transport_url("", &server()), "http://localhost:8080/");
}

#[test]
fn register_request_carries_user_and_groups() {
    let (url, body) = register("register", &server());
    assert_eq!(url, "http://localhost:8080/register");
    assert_eq!(body, Register { user_id: 7, groups: vec!["cats".to_string(), "dogs".to_string()] });
}

#[test]
fn publish_request_carries_group_and_message() {
    let (url, body) = publish("publish", "cats".to_string(), "{\"a\":1}".to_string(), &server());
    assert_eq!(url, "http://localhost:8080/publish");
    assert_eq!(
        body,
        Publish { user_id: 7, group: "cats".to_string(), message: "{\"a\":1}".to_string() }
    );
}

#[test]
fn transport_client_builds_the_requests_of_its_server() {
    let client = TransportWebSocketClient::new(server(), true);
    assert_eq!(client.websocket().state(), ConnectionState::Disconnected);
    assert!(client.websocket().is_secure());
    assert_eq!(client.server(), &server());
    let (url, body) = client.register("register");
    assert_eq!(url, "http://localhost:8080/register");
    assert_eq!(body.user_id, 7);
    let (url, body) = client.publish("publish", "dogs".to_string(), "hi".to_string());
    assert_eq!(url, "http://localhost:8080/publish");
    assert_eq!(body.group, "dogs");
    assert_eq!(body.message, "hi");
}

#[test]
fn list_result_holds_items() {
    let list = ListResult { items: vec![1u8, 2, 3] };
    assert_eq!(list.items.len(), 3);
}

#[test]
fn success_is_any_status_from_200_to_299() {
    assert!(is_success(200));
    assert!(is_success(201));
    assert!(is_success(204));
    assert!(is_success(299));
    assert!(!is_success(199));
    assert!(!is_success(300));
    assert!(!is_success(404));
    assert!(!is_success(500));
    assert!(!is_success(0));
}
