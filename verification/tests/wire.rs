use rzap::data_type::{
    BaseResponse, ControlRequest, ControlType, ListShockersResponse, RankType, SelfResponse, Shock,
    ShockerModel, ShockerResponse,
};
use rzap::json::Json;

fn example_request() -> ControlRequest {
    ControlRequest {
        shocks: vec![Shock {
            id: "abc".to_string(),
            control_type: ControlType::Shock,
            intensity: 50,
            duration: 1000,
            exclusive: true,
        }],
        custom_name: "testapp".to_string(),
    }
}

const EXAMPLE: &str = "{\"shocks\":[{\"id\":\"abc\",\"type\":\"Shock\",\"intensity\":50,\"duration\":1000,\"exclusive\":true}],\"customName\":\"testapp\"}";

#[test]
fn control_request_is_read_from_the_fixed_example() {
    let read = ControlRequest::from_json(&Json::parse(EXAMPLE).unwrap()).unwrap();
    assert_eq!(read, example_request());
}

#[test]
fn control_request_round_trip() {
    let text = example_request().to_json().to_text().unwrap();
    let read = ControlRequest::from_json(&Json::parse(&text).unwrap()).unwrap();
    assert_eq!(read, example_request());
    assert_eq!(Json::parse(&text).unwrap(), Json::parse(EXAMPLE).unwrap());
    assert_eq!(ControlRequest::from_json(&example_request().to_json()).unwrap(), example_request());
}

#[test]
fn control_request_is_written_with_the_wire_names() {
    let text = example_request().to_json().to_text().unwrap();
    assert_eq!(
        text,
        "{\"customName\":\"testapp\",\"shocks\":[{\"duration\":1000,\"exclusive\":true,\"id\":\"abc\",\"intensity\":50,\"type\":\"Shock\"}]}"
    );
    assert!(!text.contains("control_type"));
    assert!(!text.contains("custom_name"));
}

#[test]
fn control_request_with_several_and_with_no_instructions() {
    let request = ControlRequest {
        shocks: vec![
            Shock { id: "a".to_string(), control_type: ControlType::Stop, intensity: 0, duration: 0, exclusive: false },
            Shock { id: "b".to_string(), control_type: ControlType::Vibrate, intensity: 255, duration: 65535, exclusive: true },
            Shock { id: "c".to_string(), control_type: ControlType::Sound, intensity: 1, duration: 300, exclusive: true },
        ],
        custom_name: String::new(),
    };
    let text = request.to_json().to_text().unwrap();
    assert_eq!(ControlRequest::from_json(&Json::parse(&text).unwrap()).unwrap(), request);
    let empty = ControlRequest { shocks: vec![], custom_name: "n".to_string() };
    assert_eq!(empty.to_json().to_text().unwrap(), "{\"customName\":\"n\",\"shocks\":[]}");
    assert_eq!(ControlRequest::from_json(&empty.to_json()).unwrap(), empty);
}

#[test]
fn control_request_of_the_wrong_shape_is_not_read() {
    for text in [
        "{\"shocks\":[],\"custom_name\":\"x\"}",
        "{\"customName\":\"x\"}",
        "{\"shocks\":{},\"customName\":\"x\"}",
        "{\"shocks\":[{\"id\":\"a\",\"control_type\":\"Shock\",\"intensity\":1,\"duration\":300,\"exclusive\":true}],\"customName\":\"x\"}",
        "{\"shocks\":[{\"id\":\"a\",\"type\":\"Shock\",\"intensity\":256,\"duration\":300,\"exclusive\":true}],\"customName\":\"x\"}",
        "{\"shocks\":[{\"id\":\"a\",\"type\":\"Shock\",\"intensity\":1,\"duration\":65536,\"exclusive\":true}],\"customName\":\"x\"}",
        "{\"shocks\":[{\"id\":\"a\",\"type\":\"Shock\",\"intensity\":1,\"duration\":300,\"exclusive\":1}],\"customName\":\"x\"}",
        "{\"shocks\":[{\"id\":\"a\",\"type\":\"Zap\",\"intensity\":1,\"duration\":300,\"exclusive\":true}],\"customName\":\"x\"}",
        "[]",
    ] {
        assert_eq!(ControlRequest::from_json(&Json::parse(text).unwrap()), None, "{}", text);
    }
}

#[test]
fn shock_is_written_member_by_member() {
    let shock = Shock {
        id: "abc".to_string(),
        control_type: ControlType::Sound,
        intensity: 7,
        duration: 450,
        exclusive: true,
    };
    assert_eq!(
        shock.to_json(),
        Json::Object(vec![
            ("id".to_string(), Json::String("abc".to_string())),
            ("type".to_string(), Json::String("Sound".to_string())),
            ("intensity".to_string(), Json::Number(Some(7))),
            ("duration".to_string(), Json::Number(Some(450))),
            ("exclusive".to_string(), Json::Bool(true)),
        ])
    );
    assert_eq!(Shock::from_json(&shock.to_json()).unwrap(), shock);
}

#[test]
fn enum_names_are_the_wire_names() {
    for (kind, name) in [
        (ControlType::Stop, "Stop"),
        (ControlType::Shock, "Shock"),
        (ControlType::Vibrate, "Vibrate"),
        (ControlType::Sound, "Sound"),
    ] {
        assert_eq!(kind.name(), name);
        assert_eq!(ControlType::from_name(name), Some(kind));
    }
    for (rank, name) in [
        (RankType::User, "User"),
        (RankType::Support, "Support"),
        (RankType::Staff, "Staff"),
        (RankType::Admin, "Admin"),
        (RankType::System, "System"),
    ] {
        assert_eq!(rank.name(), name);
        assert_eq!(RankType::from_name(name), Some(rank));
    }
    for (model, name) in [
        (ShockerModel::CaiXianlin, "CaiXianlin"),
        (ShockerModel::PetTrainer, "PetTrainer"),
        (ShockerModel::Petrainer998DR, "Petrainer998DR"),
    ] {
        assert_eq!(model.name(), name);
        assert_eq!(ShockerModel::from_name(name), Some(model));
    }
}

#[test]
fn enum_names_are_matched_to_the_letter() {
    for name in ["", "shock", "SHOCK", "Shock ", " Shock", "Shoc", "Shocks", "User"] {
        assert_eq!(ControlType::from_name(name), None);
    }
    for name in ["", "user", "Owner", "Stop", "Admin\u{0}"] {
        assert_eq!(RankType::from_name(name), None);
    }
    for name in ["", "caixianlin", "Petrainer", "Petrainer998dr"] {
        assert_eq!(ShockerModel::from_name(name), None);
    }
}

#[test]
fn shocker_round_trip() {
    for shocker in [
        ShockerResponse {
            name: Some("Left".to_string()),
            is_paused: true,
            created_on: "2024-01-02T03:04:05Z".to_string(),
            id: "s1".to_string(),
            rf_id: u32::MAX,
            model: ShockerModel::PetTrainer,
        },
        ShockerResponse {
            name: None,
            is_paused: false,
            created_on: String::new(),
            id: String::new(),
            rf_id: 0,
            model: ShockerModel::CaiXianlin,
        },
    ] {
        let text = shocker.to_json().to_text().unwrap();
        assert_eq!(ShockerResponse::from_json(&Json::parse(&text).unwrap()).unwrap(), shocker);
    }
}

#[test]
fn shocker_is_written_in_lower_camel_case() {
    let shocker = ShockerResponse {
        name: None,
        is_paused: false,
        created_on: "c".to_string(),
        id: "s".to_string(),
        rf_id: 12,
        model: ShockerModel::Petrainer998DR,
    };
    assert_eq!(
        shocker.to_json().to_text().unwrap(),
        "{\"createdOn\":\"c\",\"id\":\"s\",\"isPaused\":false,\"model\":\"Petrainer998DR\",\"name\":null,\"rfId\":12}"
    );
}

#[test]
fn devices_round_trip() {
    let devices = vec![
        ListShockersResponse {
            shockers: vec![ShockerResponse {
                name: Some("n".to_string()),
                is_paused: false,
                created_on: "c".to_string(),
                id: "s".to_string(),
                rf_id: 9,
                model: ShockerModel::CaiXianlin,
            }],
            id: "d1".to_string(),
            name: "Hub".to_string(),
            created_on: "c1".to_string(),
        },
        ListShockersResponse { shockers: vec![], id: "d2".to_string(), name: "Spare".to_string(), created_on: "c2".to_string() },
    ];
    let text = ListShockersResponse::list_to_json(&devices).to_text().unwrap();
    assert_eq!(ListShockersResponse::list_from_json(&Json::parse(&text).unwrap()).unwrap(), devices);
    let one = devices[0].to_json().to_text().unwrap();
    assert_eq!(ListShockersResponse::from_json(&Json::parse(&one).unwrap()).unwrap(), devices[0]);
}

#[test]
fn account_round_trip() {
    for account in [
        SelfResponse { id: "u".to_string(), name: None, email: None, image: None, rank: RankType::System },
        SelfResponse {
            id: "u".to_string(),
            name: Some("n".to_string()),
            email: Some("e".to_string()),
            image: Some("i".to_string()),
            rank: RankType::Support,
        },
    ] {
        let text = account.to_json().to_text().unwrap();
        assert_eq!(SelfResponse::from_json(&Json::parse(&text).unwrap()).unwrap(), account);
    }
}

#[test]
fn envelopes_round_trip() {
    let account = BaseResponse {
        message: Some("m".to_string()),
        data: Some(SelfResponse { id: "u".to_string(), name: None, email: None, image: None, rank: RankType::User }),
    };
    let text = account.to_json().to_text().unwrap();
    assert_eq!(text, "{\"data\":{\"email\":null,\"id\":\"u\",\"image\":null,\"name\":null,\"rank\":\"User\"},\"message\":\"m\"}");
    assert_eq!(BaseResponse::<SelfResponse>::from_json(&Json::parse(&text).unwrap()).unwrap(), account);

    let nothing: BaseResponse<SelfResponse> = BaseResponse { message: None, data: None };
    let text = nothing.to_json().to_text().unwrap();
    assert_eq!(text, "{\"data\":null,\"message\":null}");
    assert_eq!(BaseResponse::<SelfResponse>::from_json(&Json::parse(&text).unwrap()).unwrap(), nothing);

    let devices: BaseResponse<Vec<ListShockersResponse>> = BaseResponse { message: None, data: Some(vec![]) };
    let text = devices.to_json().to_text().unwrap();
    assert_eq!(text, "{\"data\":[],\"message\":null}");
    assert_eq!(
        BaseResponse::<Vec<ListShockersResponse>>::from_json(&Json::parse(&text).unwrap()).unwrap(),
        devices
    );

    let message: BaseResponse<String> = BaseResponse { message: Some("ok".to_string()), data: Some("d".to_string()) };
    let text = message.to_json().to_text().unwrap();
    assert_eq!(text, "{\"data\":\"d\",\"message\":\"ok\"}");
    assert_eq!(BaseResponse::<String>::from_json(&Json::parse(&text).unwrap()).unwrap(), message);
}

#[test]
fn envelope_has_to_be_an_object() {
    for text in ["[]", "null", "\"\"", "0"] {
        let document = Json::parse(text).unwrap();
        assert_eq!(BaseResponse::<SelfResponse>::from_json(&document), None);
        assert_eq!(BaseResponse::<Vec<ListShockersResponse>>::from_json(&document), None);
        assert_eq!(BaseResponse::<String>::from_json(&document), None);
    }
}
