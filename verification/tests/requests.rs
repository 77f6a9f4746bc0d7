use rzap::api::{ListShockerSource, Method, OpenShockAPI, Request};
use rzap::api_builder::OpenShockAPIBuilder;
use rzap::data_type::{ControlRequest, ControlType, Shock};
use rzap::error::Error;
use rzap::json::Json;

fn client() -> OpenShockAPI {
    OpenShockAPIBuilder::new()
        .with_default_api_token("default-token".to_string())
        .with_base_url("https://shock.example".to_string())
        .with_app("testapp".to_string(), Some("1.0".to_string()))
        .build()
        .unwrap()
}

#[test]
fn user_info_request_is_a_get_with_the_default_token() {
    let request = client().user_info_request(None);
    assert_eq!(
        request,
        Request {
            method: Method::Get,
            url: "https://shock.example/1/users/self".to_string(),
            token: "default-token".to_string(),
            body: None,
        }
    );
}

#[test]
fn a_token_given_for_the_call_replaces_the_default() {
    let api = client();
    assert_eq!(api.user_info_request(Some("other".to_string())).token, "other");
    assert_eq!(api.shockers_request(ListShockerSource::Own, Some("other".to_string())).token, "other");
    let request = api
        .control_request("abc".to_string(), ControlType::Sound, 1, 300, Some("other".to_string()))
        .unwrap();
    assert_eq!(request.token, "other");
    assert_eq!(api.user_info_request(None).token, "default-token");
}

#[test]
fn shockers_requests_name_the_source_in_the_path() {
    let api = client();
    let own = api.shockers_request(ListShockerSource::Own, None);
    let shared = api.shockers_request(ListShockerSource::Shared, None);
    assert_eq!(own.url, "https://shock.example/1/shockers/Own");
    assert_eq!(shared.url, "https://shock.example/1/shockers/Shared");
    assert_ne!(own.url, shared.url);
    assert_eq!(own.method, Method::Get);
    assert_eq!(shared.method, Method::Get);
    assert_eq!(own.body, None);
    assert_eq!(own.token, "default-token");
}

#[test]
fn source_segments_are_the_literal_names() {
    assert_eq!(ListShockerSource::Own.segment(), "Own");
    assert_eq!(ListShockerSource::Shared.segment(), "Shared");
    assert_eq!(ListShockerSource::from_segment("Own"), Some(ListShockerSource::Own));
    assert_eq!(ListShockerSource::from_segment("Shared"), Some(ListShockerSource::Shared));
    for text in ["", "own", "OWN", "Owned", "shared", "Share", "Own/"] {
        assert_eq!(ListShockerSource::from_segment(text), None);
    }
}

#[test]
fn requests_of_the_public_api() {
    let api = OpenShockAPI::new(None, "t".to_string());
    assert_eq!(api.user_info_request(None).url, "https://api.openshock.app/1/users/self");
    assert_eq!(
        api.shockers_request(ListShockerSource::Shared, None).url,
        "https://api.openshock.app/1/shockers/Shared"
    );
    let control = api.control_request("x".to_string(), ControlType::Stop, 1, 300, None).unwrap();
    assert_eq!(control.url, "https://api.openshock.app/2/shockers/control");
}

#[test]
fn control_request_carries_one_exclusive_command_under_the_app_name() {
    let request = client()
        .control_request("abc".to_string(), ControlType::Shock, 50, 1000, None)
        .unwrap();
    assert_eq!(request.method, Method::Post);
    assert_eq!(request.url, "https://shock.example/2/shockers/control");
    assert_eq!(request.token, "default-token");
    let body = request.body.unwrap();
    assert_eq!(
        body,
        "{\"customName\":\"testapp\",\"shocks\":[{\"duration\":1000,\"exclusive\":true,\"id\":\"abc\",\"intensity\":50,\"type\":\"Shock\"}]}"
    );
    let batch = ControlRequest::from_json(&Json::parse(&body).unwrap()).unwrap();
    assert_eq!(
        batch,
        ControlRequest {
            shocks: vec![Shock {
                id: "abc".to_string(),
                control_type: ControlType::Shock,
                intensity: 50,
                duration: 1000,
                exclusive: true,
            }],
            custom_name: "testapp".to_string(),
        }
    );
}

#[test]
fn control_batch_without_app_is_named_after_the_library() {
    let api = OpenShockAPI::new(None, "t".to_string());
    let batch = api.control_batch("id-1".to_string(), ControlType::Vibrate, 100, 30000).unwrap();
    assert_eq!(batch.custom_name, "rzap");
    assert_eq!(batch.shocks.len(), 1);
    assert!(batch.shocks[0].exclusive);
    assert_eq!(batch.shocks[0].id, "id-1");
    assert_eq!(batch.shocks[0].control_type, ControlType::Vibrate);
    assert_eq!(batch.shocks[0].intensity, 100);
    assert_eq!(batch.shocks[0].duration, 30000);
}

#[test]
fn control_request_escapes_what_json_cannot_hold_as_it_is() {
    let api = OpenShockAPIBuilder::new()
        .with_default_api_token("t".to_string())
        .with_app("quote\"app".to_string(), None)
        .build()
        .unwrap();
    let request = api
        .control_request("a\\b\nc".to_string(), ControlType::Sound, 1, 300, None)
        .unwrap();
    let body = request.body.unwrap();
    assert!(body.contains("\"customName\":\"quote\\\"app\""));
    assert!(body.contains("\"id\":\"a\\\\b\\nc\""));
    let batch = ControlRequest::from_json(&Json::parse(&body).unwrap()).unwrap();
    assert_eq!(batch.custom_name, "quote\"app");
    assert_eq!(batch.shocks[0].id, "a\\b\nc");
}

#[test]
fn control_request_accepts_the_bounds() {
    let api = client();
    for (intensity, duration) in [(1u8, 300u16), (100, 300), (1, 30000), (100, 30000)] {
        let request = api.control_request("abc".to_string(), ControlType::Sound, intensity, duration, None);
        assert!(request.is_ok());
    }
}

#[test]
fn control_request_rejects_every_intensity_out_of_bounds() {
    let api = client();
    for intensity in 0..=255u8 {
        let request = api.control_request("abc".to_string(), ControlType::Shock, intensity, 1000, None);
        let batch = api.control_batch("abc".to_string(), ControlType::Shock, intensity, 1000);
        if (1..=100).contains(&intensity) {
            assert!(request.is_ok());
            assert!(batch.is_ok());
        } else {
            assert!(matches!(request, Err(Error::InvalidControlParameters)));
            assert!(matches!(batch, Err(Error::InvalidControlParameters)));
        }
    }
}

#[test]
fn control_request_rejects_every_duration_out_of_bounds() {
    let api = client();
    for duration in 0..=65535u16 {
        let batch = api.control_batch("abc".to_string(), ControlType::Vibrate, 50, duration);
        if (300..=30000).contains(&duration) {
            assert!(batch.is_ok());
        } else {
            assert!(matches!(batch, Err(Error::InvalidControlParameters)));
        }
    }
    for duration in [0u16, 299, 30001, 65535] {
        let request = api.control_request("abc".to_string(), ControlType::Vibrate, 50, duration, None);
        assert!(matches!(request, Err(Error::InvalidControlParameters)));
    }
}

#[test]
fn control_request_rejects_when_both_are_out_of_bounds() {
    let request = client().control_request("abc".to_string(), ControlType::Stop, 0, 0, None);
    assert!(matches!(request, Err(Error::InvalidControlParameters)));
}

#[test]
fn control_request_with_hands_an_error_on() {
    let api = client();
    let failed = api.control_request_with(Err(Error::EmptyPayload), None);
    assert!(matches!(failed, Err(Error::EmptyPayload)));
    let sent = api.control_request_with(Ok("{}".to_string()), Some("k".to_string())).unwrap();
    assert_eq!(
        sent,
        Request {
            method: Method::Post,
            url: "https://shock.example/2/shockers/control".to_string(),
            token: "k".to_string(),
            body: Some("{}".to_string()),
        }
    );
}

#[test]
fn the_token_travels_in_a_header_of_its_own() {
    let request = client().user_info_request(Some("k".to_string()));
    assert_eq!(request.auth_header(), ("OpenShockToken", "k"));
    let request = client().user_info_request(None);
    assert_eq!(request.auth_header(), ("OpenShockToken", "default-token"));
}

#[test]
fn every_command_within_bounds_leads_to_a_request() {
    let api = client();
    for kind in [ControlType::Stop, ControlType::Shock, ControlType::Vibrate, ControlType::Sound] {
        for intensity in 1..=100u8 {
            for duration in [300u16, 301, 1000, 29999, 30000] {
                let request = api
                    .control_request("abc".to_string(), kind, intensity, duration, None)
                    .unwrap();
                let batch =
                    ControlRequest::from_json(&Json::parse(&request.body.unwrap()).unwrap()).unwrap();
                assert_eq!(batch.shocks.len(), 1);
                assert_eq!(batch.shocks[0].id, "abc");
                assert_eq!(batch.shocks[0].control_type, kind);
                assert_eq!(batch.shocks[0].intensity, intensity);
                assert_eq!(batch.shocks[0].duration, duration);
                assert!(batch.shocks[0].exclusive);
                assert_eq!(batch.custom_name, "testapp");
            }
        }
    }
}
