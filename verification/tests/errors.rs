use rzap::api_builder::OpenShockAPIBuilder;
use rzap::error::Error;
use rzap::json::Json;

fn transport_error() -> reqwest::Error {
    reqwest::Client::new().get("not a url").build().unwrap_err()
}

#[test]
fn fixed_messages() {
    assert_eq!(Error::MissingApiToken.message(), "no API token was provided");
    assert_eq!(Error::EmptyPayload.message(), "the reply holds no payload");
    assert_eq!(Error::UnexpectedShape.message(), "the reply does not have the expected shape");
    assert_eq!(Error::InvalidControlParameters.message(), "intensity or duration is outside of bounds");
}

#[test]
fn message_of_an_invalid_header_value() {
    let error = OpenShockAPIBuilder::new()
        .with_default_api_token("t".to_string())
        .with_app("a\nb".to_string(), None)
        .build()
        .unwrap_err();
    assert_eq!(error.message(), "invalid header value for user agent: failed to parse header value");
}

#[test]
fn message_of_a_json_error_is_the_one_of_the_parser() {
    let error = Json::parse("{\"a\":").unwrap_err();
    let expected = serde_json::from_str::<serde_json::Value>("{\"a\":").unwrap_err().to_string();
    assert_eq!(error.message(), expected);
    assert!(!expected.is_empty());
}

#[test]
fn message_of_a_transport_error_is_the_one_of_the_transport() {
    let expected = transport_error().to_string();
    let error = Error::Reqwest(transport_error());
    assert_eq!(error.message(), expected);
    assert!(!expected.is_empty());
}

#[test]
fn outside_errors_convert_into_their_kind() {
    let error: Error = transport_error().into();
    assert!(matches!(error, Error::Reqwest(_)));
    let error: Error = serde_json::from_str::<serde_json::Value>("x").unwrap_err().into();
    assert!(matches!(error, Error::Serde(_)));
    assert!(matches!(Error::from(transport_error()), Error::Reqwest(_)));
}

#[test]
fn decode_errors_are_the_two_kinds_that_read_a_reply() {
    assert!(Json::parse("x").unwrap_err().is_decode_error());
    assert!(Error::UnexpectedShape.is_decode_error());
    assert!(!Error::EmptyPayload.is_decode_error());
    assert!(!Error::MissingApiToken.is_decode_error());
    assert!(!Error::InvalidControlParameters.is_decode_error());
    assert!(!Error::Reqwest(transport_error()).is_decode_error());
}
