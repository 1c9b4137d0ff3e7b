use libewon::m2web::error::{Error, ErrorKind, TransportError};
use libewon::m2web::json::{Category, DecodeError};

#[test]
fn to_string_shows_the_code_of_what_the_api_answered() {
    let shown = |code: u16, kind: ErrorKind| Error { code, kind }.to_string();
    assert_eq!(
        shown(403, ErrorKind::InvalidCredentials("Invalid credentials".to_string())),
        "HTTP 403: Invalid credentials"
    );
    assert_eq!(
        shown(204, ErrorKind::NoContent("No eWON were returned by API".to_string())),
        "HTTP 204: No eWON were returned by API"
    );
    assert_eq!(shown(400, ErrorKind::MissingParameter("no pool".to_string())), "HTTP 400: no pool");
    assert_eq!(
        shown(410, ErrorKind::EmptyResponse("Device [] does not exist".to_string())),
        "HTTP 410: Device [] does not exist"
    );
    assert_eq!(shown(0, ErrorKind::NoContent(String::new())), "HTTP 0: ");
    assert_eq!(shown(65535, ErrorKind::NoContent("x".to_string())), "HTTP 65535: x");
}

#[test]
fn to_string_shows_a_heading_for_the_rest() {
    let shown = |kind: ErrorKind| Error { code: 500, kind }.to_string();
    assert_eq!(
        shown(ErrorKind::StatelessAuthSet("stateful_auth was not set".to_string())),
        "Client set to authenticate statelessly: stateful_auth was not set"
    );
    assert_eq!(
        shown(ErrorKind::ResponseParsing("bad".to_string())),
        "Unable to parse JSON response: bad"
    );
    assert_eq!(
        shown(ErrorKind::InternalError("no API endpoint provided".to_string())),
        "Internal error: no API endpoint provided"
    );
    assert_eq!(shown(ErrorKind::UnknownError("odd".to_string())), "Unknown error: odd");
}

#[test]
fn message_is_the_text_of_the_kind() {
    assert_eq!(ErrorKind::UnknownError("odd".to_string()).message(), "odd");
    assert_eq!(ErrorKind::EmptyResponse(String::new()).message(), "");
}

#[test]
fn from_decode_error_names_the_category() {
    let error = |category: Category| {
        Error::from(DecodeError { category, detail: "at line 1 column 2".to_string() })
    };
    assert_eq!(
        error(Category::Syntax),
        Error {
            code: 500,
            kind: ErrorKind::ResponseParsing(
                "JSON response syntax error: at line 1 column 2".to_string()
            )
        }
    );
    assert_eq!(
        error(Category::Data),
        Error {
            code: 500,
            kind: ErrorKind::ResponseParsing(
                "JSON response data format does not match the expected one: at line 1 column 2"
                    .to_string()
            )
        }
    );
    assert_eq!(
        error(Category::Eof),
        Error {
            code: 500,
            kind: ErrorKind::ResponseParsing(
                "An empty or incomplete response were received: at line 1 column 2".to_string()
            )
        }
    );
    assert_eq!(
        error(Category::Io),
        Error {
            code: 500,
            kind: ErrorKind::ResponseParsing(
                "Unknown error while parsing JSON response: at line 1 column 2".to_string()
            )
        }
    );
}

#[test]
fn from_transport_error_tells_a_403_from_the_rest() {
    assert_eq!(
        Error::from(TransportError { status: Some(403), detail: "forbidden".to_string() }),
        Error { code: 403, kind: ErrorKind::InvalidCredentials("forbidden".to_string()) }
    );
    for status in [None, Some(400), Some(404), Some(500)] {
        assert_eq!(
            Error::from(TransportError { status, detail: "lost".to_string() }),
            Error {
                code: 500,
                kind: ErrorKind::UnknownError(
                    "Unknown error while requesting API: lost".to_string()
                )
            }
        );
    }
}
