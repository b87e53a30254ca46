use apns::{
    build_request, device_path, prepare_request, request_body, request_headers, Header,
    Notification, Priority,
};

const GIVEN_ID: u128 = 0x936da01f_9abd_4d9d_80c7_02af85c822a8;

fn notification(topic: &str, token: &str, payload: &str) -> Notification {
    Notification {
        device_token: token.to_string(),
        id: None,
        topic: topic.to_string(),
        expiration: None,
        priority: None,
        collapse_id: None,
        payload: payload.to_string(),
        data: None,
    }
}

fn find<'a>(headers: &'a [Header], name: &str) -> Option<&'a [u8]> {
    headers
        .iter()
        .find(|h| h.name == name)
        .map(|h| h.value.as_slice())
}

fn names(headers: &[Header]) -> Vec<&str> {
    headers.iter().map(|h| h.name.as_str()).collect()
}

#[test]
fn path_uses_token_verbatim() {
    assert_eq!(device_path("abcd1234"), "/3/device/abcd1234");
    assert_eq!(device_path("a b/c%"), "/3/device/a b/c%");
    assert_eq!(device_path(""), "/3/device/");
}

#[test]
fn priority_codes() {
    assert_eq!(Priority::High.to_int(), 10);
    assert_eq!(Priority::Low.to_int(), 5);
}

#[test]
fn only_required_headers_when_optionals_absent() {
    let n = notification("com.example.app", "abcd1234", "{}");
    let hs = request_headers(&n, GIVEN_ID);
    assert_eq!(names(&hs), vec!["apns-id", "apns-topic"]);
    assert_eq!(
        find(&hs, "apns-id").unwrap(),
        b"936da01f-9abd-4d9d-80c7-02af85c822a8"
    );
    assert_eq!(find(&hs, "apns-topic").unwrap(), b"com.example.app");
}

#[test]
fn every_combination_of_optional_headers() {
    for mask in 0u8..8 {
        let mut n = notification("t", "d", "{}");
        if mask & 1 != 0 {
            n.expiration = Some(1_500_000_000);
        }
        if mask & 2 != 0 {
            n.priority = Some(Priority::High);
        }
        if mask & 4 != 0 {
            n.collapse_id = Some("group-7".to_string());
        }
        let hs = request_headers(&n, GIVEN_ID);
        assert_eq!(hs.len(), 2 + mask.count_ones() as usize);
        match find(&hs, "apns-expiration") {
            Some(v) => {
                assert!(mask & 1 != 0);
                assert_eq!(v, &[0, 0, 0, 0, 0x59, 0x68, 0x2f, 0x00]);
                assert_eq!(u64::from_be_bytes(v.try_into().unwrap()), 1_500_000_000);
            }
            None => assert!(mask & 1 == 0),
        }
        match find(&hs, "apns-priority") {
            Some(v) => {
                assert!(mask & 2 != 0);
                assert_eq!(v, &[0, 0, 0, 10]);
            }
            None => assert!(mask & 2 == 0),
        }
        match find(&hs, "apns-collapse-id") {
            Some(v) => {
                assert!(mask & 4 != 0);
                assert_eq!(v, b"group-7");
            }
            None => assert!(mask & 4 == 0),
        }
    }
}

#[test]
fn largest_expiration_and_low_priority() {
    let mut n = notification("t", "d", "{}");
    n.expiration = Some(u64::MAX);
    n.priority = Some(Priority::Low);
    let hs = request_headers(&n, 0);
    assert_eq!(find(&hs, "apns-expiration").unwrap(), &[0xff; 8]);
    assert_eq!(find(&hs, "apns-priority").unwrap(), &[0, 0, 0, 5]);
    assert_eq!(
        find(&hs, "apns-id").unwrap(),
        b"00000000-0000-0000-0000-000000000000"
    );
}

#[test]
fn body_with_aps_only() {
    let body = request_body("{\"alert\":\"hi\"}", &None);
    assert_eq!(body, "{\"aps\":{\"alert\":\"hi\"}}");
    let v: serde_json::Value = serde_json::from_str(&body).unwrap();
    let obj = v.as_object().unwrap();
    assert_eq!(obj.len(), 1);
    assert_eq!(obj["aps"]["alert"], "hi");
}

#[test]
fn body_with_aps_and_data() {
    let data = Some("{\"k\":1,\"s\":\"x\"}".to_string());
    let body = request_body("{\"alert\":\"hi\"}", &data);
    assert_eq!(body, "{\"aps\":{\"alert\":\"hi\"},\"data\":{\"k\":1,\"s\":\"x\"}}");
    let v: serde_json::Value = serde_json::from_str(&body).unwrap();
    let obj = v.as_object().unwrap();
    assert_eq!(obj.len(), 2);
    assert_eq!(obj["aps"]["alert"], "hi");
    assert_eq!(obj["data"]["k"], 1);
    assert_eq!(obj["data"]["s"], "x");
}

#[test]
fn given_id_is_kept() {
    let mut n = notification("com.example.app", "abcd1234", "{\"alert\":\"hi\"}");
    n.id = Some(GIVEN_ID);
    let r = build_request(&n);
    assert_eq!(r.id, GIVEN_ID);
    assert_eq!(
        find(&r.headers, "apns-id").unwrap(),
        b"936da01f-9abd-4d9d-80c7-02af85c822a8"
    );
    let p = prepare_request(&n, 7);
    assert_eq!(p.id, GIVEN_ID);
}

#[test]
fn generated_id_is_used_when_none_given() {
    let n = notification("t", "d", "{}");
    let r = prepare_request(&n, 0x0123456789abcdef0123456789abcdef);
    assert_eq!(r.id, 0x0123456789abcdef0123456789abcdef);
    assert_eq!(
        find(&r.headers, "apns-id").unwrap(),
        b"01234567-89ab-cdef-0123-456789abcdef"
    );
}

#[test]
fn fresh_ids_are_distinct_version4() {
    let n = notification("t", "d", "{}");
    let a = build_request(&n);
    let b = build_request(&n);
    assert_ne!(a.id, b.id);
    for id in [a.id, b.id] {
        let u = uuid::Uuid::from_u128(id);
        assert_eq!(u.get_version_num(), 4);
        assert_eq!(u.get_variant(), uuid::Variant::RFC4122);
    }
    let text = String::from_utf8(find(&a.headers, "apns-id").unwrap().to_vec()).unwrap();
    assert_eq!(uuid::Uuid::parse_str(&text).unwrap().as_u128(), a.id);
}

#[test]
fn request_for_example_notification() {
    let n = notification("com.example.app", "abcd1234", "{\"alert\":\"hi\"}");
    let r = build_request(&n);
    assert_eq!(r.path, "/3/device/abcd1234");
    assert_eq!(find(&r.headers, "apns-topic").unwrap(), b"com.example.app");
    let text = String::from_utf8(find(&r.headers, "apns-id").unwrap().to_vec()).unwrap();
    assert_eq!(text.len(), 36);
    assert!(uuid::Uuid::parse_str(&text).is_ok());
    assert_eq!(r.body, "{\"aps\":{\"alert\":\"hi\"}}");
}

#[test]
fn gateway_by_environment() {
    assert_eq!(apns::gateway(true), "api.push.apple.com:443");
    assert_eq!(apns::gateway(false), "api.development.push.apple.com:443");
    assert_eq!(apns::gateway(true), apns::APN_URL_PRODUCTION);
    assert_eq!(apns::gateway(false), apns::APN_URL_DEV);
}
