use libewon::m2web::ewon::{ApiResponse, Ewon};
use libewon::m2web::json::{parse, Category, DecodeError, Json};

fn sample() -> Ewon {
    Ewon {
        id: 639491,
        name: "eWON  FLEXOCOLOR SM2845".to_string(),
        encoded_name: "eWON++FLEXOCOLOR+SM2845".to_string(),
        status: "online".to_string(),
        description: "SM2845 SIRIUS DEBOBINEUR1000".to_string(),
        custom_attributes: ["FRANCE".to_string(), "".to_string(), "é".to_string()],
        m2web_server: "eu2.m2web.talk2m.com".to_string(),
        lan_devices: vec!["plc".to_string(), "hmi".to_string()],
        ewon_services: vec!["vnc".to_string()],
    }
}

fn data(detail: &str) -> DecodeError {
    DecodeError { category: Category::Data, detail: detail.to_string() }
}

/// The JSON form of the sample, without the member of a given name.
fn sample_without(name: &str) -> Json {
    match sample().to_json() {
        Json::Object(members) => {
            Json::Object(members.into_iter().filter(|(member, _)| member != name).collect())
        }
        _ => unreachable!(),
    }
}

/// The JSON form of the sample, with another value for the member of a given name.
fn sample_with(name: &str, value: &str) -> Json {
    match sample().to_json() {
        Json::Object(members) => Json::Object(
            members
                .into_iter()
                .map(|(member, old)| {
                    if member == name {
                        (member, parse(value).unwrap())
                    } else {
                        (member, old)
                    }
                })
                .collect(),
        ),
        _ => unreachable!(),
    }
}

#[test]
fn to_json_writes_the_names_of_the_api() {
    let tree = sample().to_json();
    let expected = parse(
        r#"{
            "id": 639491,
            "name": "eWON  FLEXOCOLOR SM2845",
            "encodedName": "eWON++FLEXOCOLOR+SM2845",
            "status": "online",
            "description": "SM2845 SIRIUS DEBOBINEUR1000",
            "customAttributes": ["FRANCE", "", "é"],
            "m2webServer": "eu2.m2web.talk2m.com",
            "lanDevices": ["plc", "hmi"],
            "ewonServices": ["vnc"]
        }"#,
    )
    .unwrap();
    for name in [
        "id",
        "name",
        "encodedName",
        "status",
        "description",
        "customAttributes",
        "m2webServer",
        "lanDevices",
        "ewonServices",
    ] {
        assert_eq!(tree.member(name), expected.member(name));
        assert!(tree.member(name).is_some());
    }
    match tree {
        Json::Object(members) => assert_eq!(members.len(), 9),
        _ => panic!("an eWON is written as an object"),
    }
}

#[test]
fn an_ewon_written_and_read_back_is_the_same() {
    for ewon in [sample(), Ewon::default(), Ewon { id: 4294967295, ..sample() }] {
        assert_eq!(Ewon::from_json(&ewon.to_json()), Ok(ewon));
    }
}

#[test]
fn from_json_passes_over_what_an_ewon_does_not_have() {
    let tree = match sample().to_json() {
        Json::Object(mut members) => {
            members.insert(0, ("pool".to_string(), Json::Number("3".to_string())));
            Json::Object(members)
        }
        _ => unreachable!(),
    };
    assert_eq!(Ewon::from_json(&tree), Ok(sample()));
}

#[test]
fn from_json_names_the_member_that_is_missing() {
    for name in [
        "id",
        "name",
        "encodedName",
        "status",
        "description",
        "customAttributes",
        "m2webServer",
        "lanDevices",
        "ewonServices",
    ] {
        assert_eq!(
            Ewon::from_json(&sample_without(name)),
            Err(data(&format!("missing field `{}`", name)))
        );
    }
}

#[test]
fn from_json_names_the_first_member_at_fault() {
    let tree = match sample_without("description") {
        Json::Object(members) => {
            Json::Object(members.into_iter().filter(|(member, _)| member != "status").collect())
        }
        _ => unreachable!(),
    };
    assert_eq!(Ewon::from_json(&tree), Err(data("missing field `status`")));
}

#[test]
fn from_json_names_the_member_of_another_type() {
    assert_eq!(
        Ewon::from_json(&sample_with("id", "\"639491\"")),
        Err(data("invalid type for field `id`, expected an unsigned 32-bit integer"))
    );
    assert_eq!(
        Ewon::from_json(&sample_with("id", "4294967296")),
        Err(data("invalid type for field `id`, expected an unsigned 32-bit integer"))
    );
    assert_eq!(
        Ewon::from_json(&sample_with("id", "-5")),
        Err(data("invalid type for field `id`, expected an unsigned 32-bit integer"))
    );
    assert_eq!(
        Ewon::from_json(&sample_with("status", "null")),
        Err(data("invalid type for field `status`, expected a string"))
    );
    assert_eq!(
        Ewon::from_json(&sample_with("lanDevices", "[\"plc\", 3]")),
        Err(data("invalid type for field `lanDevices`, expected an array of strings"))
    );
    assert_eq!(
        Ewon::from_json(&sample_with("ewonServices", "\"vnc\"")),
        Err(data("invalid type for field `ewonServices`, expected an array of strings"))
    );
}

#[test]
fn from_json_wants_three_custom_attributes() {
    for value in ["[]", "[\"a\", \"b\"]", "[\"a\", \"b\", \"c\", \"d\"]", "[\"a\", \"b\", 3]", "3"] {
        assert_eq!(
            Ewon::from_json(&sample_with("customAttributes", value)),
            Err(data("invalid type for field `customAttributes`, expected an array of 3 strings"))
        );
    }
}

#[test]
fn from_json_wants_an_object() {
    for text in ["null", "3", "\"ewon\"", "[]"] {
        assert_eq!(
            Ewon::from_json(&parse(text).unwrap()),
            Err(data("invalid type, expected an object"))
        );
        assert_eq!(
            ApiResponse::from_json(&parse(text).unwrap()),
            Err(data("invalid type, expected an object"))
        );
    }
}

#[test]
fn decode_fills_in_what_the_envelope_does_not_mention() {
    assert_eq!(
        ApiResponse::decode(r#"{"success": true}"#),
        Ok(ApiResponse {
            success: true,
            ewon: Ewon::default(),
            ewons: vec![],
            t2msession: String::new(),
            message: String::new(),
        })
    );
    assert_eq!(
        ApiResponse::decode(r#"{"message": "Invalid credentials", "code": 403, "success": false}"#),
        Ok(ApiResponse {
            success: false,
            ewon: Ewon::default(),
            ewons: vec![],
            t2msession: String::new(),
            message: "Invalid credentials".to_string(),
        })
    );
}

#[test]
fn decode_wants_the_success_flag() {
    assert_eq!(ApiResponse::decode("{}"), Err(data("missing field `success`")));
    assert_eq!(
        ApiResponse::decode(r#"{"success": "yes"}"#),
        Err(data("invalid type for field `success`, expected a boolean"))
    );
}

#[test]
fn decode_refuses_a_member_of_another_type() {
    assert_eq!(
        ApiResponse::decode(r#"{"success": true, "message": 3}"#),
        Err(data("invalid type for field `message`, expected a string"))
    );
    assert_eq!(
        ApiResponse::decode(r#"{"success": true, "t2msession": null}"#),
        Err(data("invalid type for field `t2msession`, expected a string"))
    );
    assert_eq!(
        ApiResponse::decode(r#"{"success": true, "ewons": {}}"#),
        Err(data("invalid type for field `ewons`, expected an array"))
    );
    assert_eq!(
        ApiResponse::decode(r#"{"success": true, "ewons": [3]}"#),
        Err(data("invalid type, expected an object"))
    );
    assert_eq!(
        ApiResponse::decode(r#"{"success": true, "ewon": null}"#),
        Err(data("invalid type, expected an object"))
    );
    assert_eq!(
        ApiResponse::decode(r#"{"success": true, "ewon": {}}"#),
        Err(data("missing field `id`"))
    );
}

#[test]
fn decode_reads_the_ewons_in_their_order() {
    let mut first = sample();
    first.id = 1;
    let mut second = sample();
    second.id = 2;
    let tree = Json::Object(vec![
        ("ewons".to_string(), Json::Array(vec![first.to_json(), second.to_json()])),
        ("ewon".to_string(), sample().to_json()),
        ("success".to_string(), Json::Bool(true)),
        ("t2msession".to_string(), Json::Text("abc".to_string())),
    ]);
    assert_eq!(
        ApiResponse::from_json(&tree),
        Ok(ApiResponse {
            success: true,
            ewon: sample(),
            ewons: vec![first, second],
            t2msession: "abc".to_string(),
            message: String::new(),
        })
    );
}

#[test]
fn decode_reports_the_first_ewon_at_fault() {
    let tree = Json::Object(vec![
        ("success".to_string(), Json::Bool(true)),
        (
            "ewons".to_string(),
            Json::Array(vec![sample().to_json(), sample_without("name"), sample_without("id")]),
        ),
    ]);
    assert_eq!(ApiResponse::from_json(&tree), Err(data("missing field `name`")));
}

#[test]
fn decode_reports_what_the_parser_reports() {
    let error = ApiResponse::decode("{\"success\": tru").unwrap_err();
    assert_eq!(error.category, Category::Eof);
    let error = ApiResponse::decode("{\"success\": true,}").unwrap_err();
    assert_eq!(error.category, Category::Syntax);
    assert_eq!(error.detail, "trailing comma at line 1 column 18");
}
