use rzap::api::{control_message_from, shockers_from, user_info_from, OpenShockAPI};
use rzap::data_type::{ListShockersResponse, RankType, SelfResponse, ShockerModel, ShockerResponse};
use rzap::error::Error;
use rzap::json::Json;

#[test]
fn user_info_is_read_from_the_payload() {
    let account =
        OpenShockAPI::read_user_info("{\"message\":null,\"data\":{\"id\":\"u1\",\"rank\":\"User\"}}")
            .unwrap();
    assert_eq!(
        account,
        SelfResponse { id: "u1".to_string(), name: None, email: None, image: None, rank: RankType::User }
    );
}

#[test]
fn user_info_with_every_field() {
    let body = "{\"message\":\"\",\"data\":{\"id\":\"u2\",\"name\":\"Ann\",\"email\":\"ann@example.org\",\"image\":\"https://img.example/a.png\",\"rank\":\"Admin\",\"extra\":[1,2.5,-3]}}";
    let account = OpenShockAPI::read_user_info(body).unwrap();
    assert_eq!(
        account,
        SelfResponse {
            id: "u2".to_string(),
            name: Some("Ann".to_string()),
            email: Some("ann@example.org".to_string()),
            image: Some("https://img.example/a.png".to_string()),
            rank: RankType::Admin,
        }
    );
}

#[test]
fn user_info_without_payload_is_an_empty_payload() {
    let account = OpenShockAPI::read_user_info("{\"message\":\"failure\",\"data\":null}");
    assert!(matches!(account, Err(Error::EmptyPayload)));
    let account = OpenShockAPI::read_user_info("{\"message\":\"failure\"}");
    assert!(matches!(account, Err(Error::EmptyPayload)));
    let account = OpenShockAPI::read_user_info("{}");
    assert!(matches!(account, Err(Error::EmptyPayload)));
}

#[test]
fn a_body_that_is_no_json_is_a_decode_error_for_every_operation() {
    for body in ["<html>service unavailable</html>", "", "{\"message\":", "{} trailing", "nul"] {
        assert!(matches!(OpenShockAPI::read_user_info(body), Err(Error::Serde(_))));
        assert!(matches!(OpenShockAPI::read_shockers(body), Err(Error::Serde(_))));
        assert!(matches!(OpenShockAPI::read_control_message(body), Err(Error::Serde(_))));
    }
}

#[test]
fn json_of_another_shape_is_told_apart_from_text_that_is_no_json() {
    for body in ["[]", "null", "\"text\"", "17", "true"] {
        assert!(matches!(OpenShockAPI::read_user_info(body), Err(Error::UnexpectedShape)));
        assert!(matches!(OpenShockAPI::read_shockers(body), Err(Error::UnexpectedShape)));
        assert!(matches!(OpenShockAPI::read_control_message(body), Err(Error::UnexpectedShape)));
    }
}

#[test]
fn user_info_of_the_wrong_shape() {
    for body in [
        "{\"data\":{\"rank\":\"User\"}}",
        "{\"data\":{\"id\":\"u1\"}}",
        "{\"data\":{\"id\":7,\"rank\":\"User\"}}",
        "{\"data\":{\"id\":null,\"rank\":\"User\"}}",
        "{\"data\":{\"id\":\"u1\",\"rank\":\"user\"}}",
        "{\"data\":{\"id\":\"u1\",\"rank\":\"Owner\"}}",
        "{\"data\":{\"id\":\"u1\",\"rank\":\"User\",\"name\":5}}",
        "{\"data\":{\"id\":\"u1\",\"rank\":\"User\",\"email\":[]}}",
        "{\"data\":\"u1\"}",
        "{\"data\":[]}",
        "{\"message\":5,\"data\":{\"id\":\"u1\",\"rank\":\"User\"}}",
    ] {
        assert!(matches!(OpenShockAPI::read_user_info(body), Err(Error::UnexpectedShape)), "{}", body);
    }
}

#[test]
fn every_rank_is_read() {
    for (name, rank) in [
        ("User", RankType::User),
        ("Support", RankType::Support),
        ("Staff", RankType::Staff),
        ("Admin", RankType::Admin),
        ("System", RankType::System),
    ] {
        let body = format!("{{\"data\":{{\"id\":\"u\",\"rank\":\"{}\"}}}}", name);
        assert_eq!(OpenShockAPI::read_user_info(&body).unwrap().rank, rank);
    }
}

#[test]
fn a_later_member_of_the_same_name_counts() {
    let body = "{\"data\":{\"id\":\"first\",\"rank\":\"User\",\"id\":\"second\"}}";
    assert_eq!(OpenShockAPI::read_user_info(body).unwrap().id, "second");
}

#[test]
fn shockers_are_read_from_the_payload() {
    let body = "{\"message\":\"\",\"data\":[{\"shockers\":[{\"name\":\"Left\",\"isPaused\":false,\"createdOn\":\"2024-01-02T03:04:05Z\",\"id\":\"s1\",\"rfId\":4711,\"model\":\"CaiXianlin\"},{\"name\":null,\"isPaused\":true,\"createdOn\":\"2024-02-02T00:00:00Z\",\"id\":\"s2\",\"rfId\":0,\"model\":\"Petrainer998DR\"}],\"id\":\"d1\",\"name\":\"Hub\",\"createdOn\":\"2023-12-31T23:59:59Z\"},{\"shockers\":[],\"id\":\"d2\",\"name\":\"Spare\",\"createdOn\":\"2024-03-01T00:00:00Z\"}]}";
    let devices = OpenShockAPI::read_shockers(body).unwrap();
    assert_eq!(
        devices,
        vec![
            ListShockersResponse {
                shockers: vec![
                    ShockerResponse {
                        name: Some("Left".to_string()),
                        is_paused: false,
                        created_on: "2024-01-02T03:04:05Z".to_string(),
                        id: "s1".to_string(),
                        rf_id: 4711,
                        model: ShockerModel::CaiXianlin,
                    },
                    ShockerResponse {
                        name: None,
                        is_paused: true,
                        created_on: "2024-02-02T00:00:00Z".to_string(),
                        id: "s2".to_string(),
                        rf_id: 0,
                        model: ShockerModel::Petrainer998DR,
                    },
                ],
                id: "d1".to_string(),
                name: "Hub".to_string(),
                created_on: "2023-12-31T23:59:59Z".to_string(),
            },
            ListShockersResponse {
                shockers: vec![],
                id: "d2".to_string(),
                name: "Spare".to_string(),
                created_on: "2024-03-01T00:00:00Z".to_string(),
            },
        ]
    );
}

#[test]
fn an_empty_list_of_devices_is_no_error() {
    let devices = OpenShockAPI::read_shockers("{\"message\":null,\"data\":[]}").unwrap();
    assert_eq!(devices, vec![]);
}

#[test]
fn shockers_without_payload_is_an_empty_payload() {
    assert!(matches!(
        OpenShockAPI::read_shockers("{\"message\":\"failure\",\"data\":null}"),
        Err(Error::EmptyPayload)
    ));
    assert!(matches!(OpenShockAPI::read_shockers("{}"), Err(Error::EmptyPayload)));
}

#[test]
fn shockers_of_the_wrong_shape() {
    let shocker = |rf_id: &str, model: &str| {
        format!(
            "{{\"data\":[{{\"shockers\":[{{\"isPaused\":false,\"createdOn\":\"c\",\"id\":\"s\",\"rfId\":{},\"model\":\"{}\"}}],\"id\":\"d\",\"name\":\"n\",\"createdOn\":\"c\"}}]}}",
            rf_id, model
        )
    };
    assert!(OpenShockAPI::read_shockers(&shocker("4294967295", "PetTrainer")).is_ok());
    for body in [
        shocker("4294967296", "PetTrainer"),
        shocker("-1", "PetTrainer"),
        shocker("1.0", "PetTrainer"),
        shocker("1e2", "PetTrainer"),
        shocker("\"1\"", "PetTrainer"),
        shocker("1", "Unknown"),
        "{\"data\":{}}".to_string(),
        "{\"data\":[1]}".to_string(),
        "{\"data\":[{\"id\":\"d\",\"name\":\"n\",\"createdOn\":\"c\"}]}".to_string(),
        "{\"data\":[{\"shockers\":null,\"id\":\"d\",\"name\":\"n\",\"createdOn\":\"c\"}]}".to_string(),
        "{\"data\":[{\"shockers\":[],\"id\":\"d\",\"createdOn\":\"c\"}]}".to_string(),
        "{\"data\":[{\"shockers\":[{}],\"id\":\"d\",\"name\":\"n\",\"createdOn\":\"c\"}]}".to_string(),
    ] {
        assert!(matches!(OpenShockAPI::read_shockers(&body), Err(Error::UnexpectedShape)), "{}", body);
    }
}

#[test]
fn control_message_is_handed_on() {
    let message = OpenShockAPI::read_control_message(
        "{\"message\":\"Successfully sent control messages\",\"data\":null}",
    )
    .unwrap();
    assert_eq!(message, "Successfully sent control messages");
    let message =
        OpenShockAPI::read_control_message("{\"message\":\"Shocker not found\",\"data\":\"x\"}").unwrap();
    assert_eq!(message, "Shocker not found");
}

#[test]
fn control_reply_without_message_is_an_empty_payload() {
    for body in ["{}", "{\"message\":null}", "{\"data\":\"only data\"}", "{\"message\":null,\"data\":null}"] {
        assert!(matches!(OpenShockAPI::read_control_message(body), Err(Error::EmptyPayload)), "{}", body);
    }
}

#[test]
fn control_reply_of_the_wrong_shape() {
    for body in ["{\"message\":1}", "{\"message\":\"ok\",\"data\":{}}", "{\"message\":[\"ok\"]}"] {
        assert!(matches!(OpenShockAPI::read_control_message(body), Err(Error::UnexpectedShape)), "{}", body);
    }
}

#[test]
fn readers_of_a_parsed_body_hand_an_error_on() {
    assert!(matches!(user_info_from(Err(Error::MissingApiToken)), Err(Error::MissingApiToken)));
    assert!(matches!(shockers_from(Err(Error::EmptyPayload)), Err(Error::EmptyPayload)));
    assert!(matches!(
        control_message_from(Err(Error::InvalidControlParameters)),
        Err(Error::InvalidControlParameters)
    ));
}

#[test]
fn readers_of_a_parsed_body_take_a_document_built_by_hand() {
    let document = Json::Object(vec![
        ("message".to_string(), Json::Null),
        (
            "data".to_string(),
            Json::Object(vec![
                ("id".to_string(), Json::String("u1".to_string())),
                ("rank".to_string(), Json::String("Staff".to_string())),
            ]),
        ),
    ]);
    let account = user_info_from(Ok(document)).unwrap();
    assert_eq!(account.id, "u1");
    assert_eq!(account.rank, RankType::Staff);
    let document = Json::Object(vec![("data".to_string(), Json::Array(vec![]))]);
    assert_eq!(shockers_from(Ok(document)).unwrap(), vec![]);
    let document = Json::Object(vec![("message".to_string(), Json::String("done".to_string()))]);
    assert_eq!(control_message_from(Ok(document)).unwrap(), "done");
    assert!(matches!(user_info_from(Ok(Json::Array(vec![]))), Err(Error::UnexpectedShape)));
}
