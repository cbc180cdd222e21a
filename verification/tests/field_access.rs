use lci_gateway::{
    get_field_request, get_online_state, get_online_state_request, set_field, set_field_request,
    Configuration, GetFailure, OnlineState, OnlineStateConversionError, Request, SetError, Thing,
    ThingError, GATEWAY,
};

fn thing(uid: &str) -> Thing {
    Thing::new("Awning Lights".to_string(), uid.to_string(), Configuration::new(Some(13)))
}

fn transport_error() -> reqwest::Error {
    reqwest::Client::new().get("no address").build().unwrap_err()
}

fn json_error() -> serde_json::Error {
    serde_json::from_str::<serde_json::Value>("{\"state\": ").unwrap_err()
}

#[test]
fn get_field_request_builds_the_address_of_the_item() {
    assert_eq!(
        get_field_request(&thing("idsmyrv:rgb-thing:00-01"), "color"),
        Request::Get {
            path: "/rest/items/idsmyrv_rgb_thing_00_01_color".to_string()
        }
    );
}

#[test]
fn request_url_puts_the_address_of_the_gateway_before_the_path() {
    assert_eq!(GATEWAY, "http://192.168.1.4:8080");
    let read = get_field_request(&thing("dimmer:0000"), "dimmer");
    assert_eq!(read.url(GATEWAY), "http://192.168.1.4:8080/rest/items/dimmer_0000_dimmer");
    assert_eq!(read.url("http://10.0.0.7"), "http://10.0.0.7/rest/items/dimmer_0000_dimmer");
    assert_eq!(read.url(""), "/rest/items/dimmer_0000_dimmer");
    let write = set_field_request(&thing("dimmer:0000"), "dimmer", "75".to_string());
    assert_eq!(write.url(GATEWAY), "http://192.168.1.4:8080/rest/items/dimmer_0000_dimmer");
}

#[test]
fn get_field_request_sanitizes_the_identifier_only() {
    assert_eq!(
        get_field_request(&thing("a:b-c"), "x:y-z"),
        Request::Get { path: "/rest/items/a_b_c_x:y-z".to_string() }
    );
    assert_eq!(
        get_field_request(&thing(""), ""),
        Request::Get { path: "/rest/items/_".to_string() }
    );
}

#[test]
fn set_field_request_posts_the_value_as_it_is() {
    assert_eq!(
        set_field_request(&thing("rgb:1"), "color", "12,100,50".to_string()),
        Request::Post {
            path: "/rest/items/rgb_1_color".to_string(),
            accept: "application/json".to_string(),
            body: "12,100,50".to_string(),
        }
    );
    assert_eq!(
        set_field_request(&thing("rgb:1"), "color", String::new()),
        Request::Post {
            path: "/rest/items/rgb_1_color".to_string(),
            accept: "application/json".to_string(),
            body: String::new(),
        }
    );
}

#[test]
fn set_field_accepts_every_status_from_200_to_299() {
    for status in 200..=299u16 {
        assert!(set_field(Ok(status)).is_ok());
    }
}

#[test]
fn set_field_fails_with_every_other_status() {
    for status in (0..200u16).chain(300..=1000).chain([u16::MAX]) {
        match set_field(Ok(status)) {
            Err(SetError::Status(code)) => assert_eq!(code, status),
            other => panic!("{} gave {:?}", status, other),
        }
    }
}

#[test]
fn set_field_fails_when_nothing_was_sent() {
    assert!(matches!(set_field(Err(transport_error())), Err(SetError::Send(_))));
}

#[test]
fn get_online_state_request_reads_the_online_field() {
    assert_eq!(
        get_online_state_request(&thing("rgb:1")),
        Request::Get { path: "/rest/items/rgb_1_online".to_string() }
    );
}

#[test]
fn get_online_state_reads_the_reply() {
    assert_eq!(get_online_state(Ok("ON".to_string())).unwrap(), OnlineState::Online);
    assert_eq!(get_online_state(Ok("Off".to_string())).unwrap(), OnlineState::Offline);
    assert_eq!(get_online_state(Ok("locked".to_string())).unwrap(), OnlineState::Locked);
    match get_online_state(Ok("NULL".to_string())) {
        Err(OnlineStateConversionError::UnknownValue(value)) => assert_eq!(value, "NULL"),
        other => panic!("read as {:?}", other),
    }
    assert!(matches!(
        get_online_state(Err(GetFailure::SerdeJsonConversion(json_error()))),
        Err(OnlineStateConversionError::GetFailure(GetFailure::SerdeJsonConversion(_)))
    ));
}

#[test]
fn thing_error_tells_its_three_failures_apart() {
    let failures = [
        ThingError::Getting(transport_error()),
        ThingError::Text(transport_error()),
        ThingError::ConvertingJson(json_error()),
    ];
    assert!(matches!(failures[0], ThingError::Getting(_)));
    assert!(matches!(failures[1], ThingError::Text(_)));
    assert!(matches!(failures[2], ThingError::ConvertingJson(_)));
}
