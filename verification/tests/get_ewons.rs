use libewon::m2web::client::{api_response, Client, ClientBuilder, Reply, Request};
use libewon::m2web::error::{Error, ErrorKind, TransportError};
use libewon::m2web::ewon::Ewon;

/// Stands for the API: checks what it is sent, and answers.
fn answer(
    request: &Request,
    url: &str,
    query: &[(&str, &str)],
    status: u16,
    body: &str,
) -> Result<Reply, TransportError> {
    assert_eq!(request.url, url);
    let sent: Vec<(&str, &str)> =
        request.query.iter().map(|(name, value)| (name.as_str(), value.as_str())).collect();
    assert_eq!(sent, query);
    Ok(Reply { status, body: body.to_string() })
}

fn stateless_client() -> Client {
    let server_uri = format!("{}/t2mapi", "http://127.0.0.1:8080");
    ClientBuilder::default()
        .t2m_url(&server_uri)
        .t2m_account("account2")
        .t2m_username("username2")
        .t2m_password("password2")
        .t2m_developer_id("795f1844-2f5e-4d8b-9922-25c45d3e1c47")
        .build()
        .unwrap()
}

/// Asks the client for all eWONs, and answers for the API with `body`.
fn get_all_ewons(client: &Client, status: u16, body: &str) -> Result<Vec<Ewon>, Error> {
    let request = client.get_ewons_request(None).unwrap();
    let outcome = answer(
        &request,
        "http://127.0.0.1:8080/t2mapi/getewons",
        &[
            ("t2maccount", "account2"),
            ("t2musername", "username2"),
            ("t2mpassword", "password2"),
            ("t2mdeveloperid", "795f1844-2f5e-4d8b-9922-25c45d3e1c47"),
            ("pool", ""),
        ],
        status,
        body,
    );
    client.get_ewons(api_response(outcome))
}

#[test]
fn get_ewons_empty_ok() {
    let client = stateless_client();

    let json_response = r#"{"ewons": [], "success": true}"#;

    let ewons = match get_all_ewons(&client, 200, json_response) {
        Ok(_) => panic!("client.get_ewons(None) should had returned an HTTP 204"),
        Err(err) => err,
    };

    assert_eq!(ewons.to_string(), "HTTP 204: No eWON were returned by API");
    assert_eq!(
        ewons,
        Error { code: 204, kind: ErrorKind::NoContent("No eWON were returned by API".to_string()) }
    );
}

#[test]
fn get_ewons_filled_ok() {
    let client = stateless_client();

    let json_response = r#"{
        "ewons": [
        {
            "id": 1206698,
            "name": "bea-test",
            "encodedName": "bea-test",
            "status": "offline",
            "description": "",
            "customAttributes": [
            "bea",
            "",
            ""
            ],
            "m2webServer": "eu2.m2web.talk2m.com",
            "lanDevices": [],
            "ewonServices": []
        },
        {
            "id": 639491,
            "name": "eWON  FLEXOCOLOR SM2845",
            "encodedName": "eWON++FLEXOCOLOR+SM2845",
            "status": "online",
            "description": "SM2845 SIRIUS DEBOBINEUR1000",
            "customAttributes": [
            "FRANCE",
            "",
            ""
            ],
            "m2webServer": "eu2.m2web.talk2m.com",
            "lanDevices": [],
            "ewonServices": []
        }
        ],
        "success": true
    }"#;

    let ewons = get_all_ewons(&client, 200, json_response).unwrap();

    assert_eq!(
        &vec![
            Ewon {
                id: 1206698,
                name: "bea-test".to_string(),
                encoded_name: "bea-test".to_string(),
                status: "offline".to_string(),
                description: "".to_string(),
                custom_attributes: ["bea".to_string(), "".to_string(), "".to_string(),],
                m2web_server: "eu2.m2web.talk2m.com".to_string(),
                lan_devices: vec![],
                ewon_services: vec![],
            },
            Ewon {
                id: 639491,
                name: "eWON  FLEXOCOLOR SM2845".to_string(),
                encoded_name: "eWON++FLEXOCOLOR+SM2845".to_string(),
                status: "online".to_string(),
                description: "SM2845 SIRIUS DEBOBINEUR1000".to_string(),
                custom_attributes: ["FRANCE".to_string(), "".to_string(), "".to_string(),],
                m2web_server: "eu2.m2web.talk2m.com".to_string(),
                lan_devices: vec![],
                ewon_services: vec![],
            }
        ],
        &ewons
    );
}

#[test]
fn get_ewons_filled_missing_fields_ko() {
    let client = stateless_client();

    let json_response = r#"{
        "ewons": [
        {
            "id": 1206698,
            "name": "bea-test",
            "encodedName": "bea-test",
            "customAttributes": [
            "bea",
            "",
            ""
            ],
            "m2webServer": "eu2.m2web.talk2m.com",
            "lanDevices": [],
            "ewonServices": []
        },
        {
            "id": 639491,
            "name": "eWON  FLEXOCOLOR SM2845",
            "encodedName": "eWON++FLEXOCOLOR+SM2845",
            "status": "online",
            "description": "SM2845 SIRIUS DEBOBINEUR1000",
            "lanDevices": [],
            "ewonServices": []
        }
        ],
        "success": true
    }"#;

    let ewons = match get_all_ewons(&client, 200, json_response) {
        Ok(_) => panic!("client.get_ewons(None) should had returned error::ResponseParsing"),
        Err(err) => err,
    };

    assert_eq!(
        ewons.to_string(),
        "Unable to parse JSON response: JSON response data format does not match the expected one: missing field `status`"
    );
    assert_eq!(ewons.code, 500);
}

#[test]
fn get_ewons_of_a_pool_names_the_pool() {
    let client = stateless_client();
    let request = client.get_ewons_request(Some("emea")).unwrap();
    assert_eq!(request.url, "http://127.0.0.1:8080/t2mapi/getewons");
    assert_eq!(request.query.len(), 5);
    assert_eq!(request.query[4], ("pool".to_string(), "emea".to_string()));
}

#[test]
fn get_ewons_without_a_list_is_no_content() {
    let client = stateless_client();
    let error = get_all_ewons(&client, 200, r#"{"success": true}"#).unwrap_err();
    assert_eq!(error.code, 204);
}

#[test]
fn get_ewons_needs_a_session_when_stateful() {
    let client = ClientBuilder::default().stateful_auth(true).build().unwrap();
    let no_session = Error {
        code: 403,
        kind: ErrorKind::InvalidCredentials(
            "No session opened, please login before requesting the API".to_string(),
        ),
    };
    assert_eq!(client.get_ewons_request(None), Err(no_session));

    let reply = Reply { status: 200, body: r#"{"ewons": [], "success": true}"#.to_string() };
    let error = client.get_ewons(api_response(Ok(reply))).unwrap_err();
    assert_eq!(error.code, 403);
    assert_eq!(
        error.to_string(),
        "HTTP 403: No session opened, please login before requesting the API"
    );
}

#[test]
fn get_ewons_within_a_session_sends_the_session() {
    let mut client = ClientBuilder::default()
        .t2m_developer_id("795f1844-2f5e-4d8b-9922-25c45d3e1c47")
        .stateful_auth(true)
        .build()
        .unwrap();
    let opened =
        Reply { status: 200, body: r#"{"t2msession": "abc123", "success": true}"#.to_string() };
    client.login(api_response(Ok(opened))).unwrap();

    let request = client.get_ewons_request(Some("emea")).unwrap();
    assert_eq!(
        request.query,
        vec![
            ("t2msession".to_string(), "abc123".to_string()),
            ("t2mdeveloperid".to_string(), "795f1844-2f5e-4d8b-9922-25c45d3e1c47".to_string()),
            ("pool".to_string(), "emea".to_string()),
        ]
    );
}
