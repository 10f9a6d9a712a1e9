use fabric_atelier::config::Settings;
use fabric_atelier::json::Json;
use fabric_atelier::loader::PatternLoader;
use fabric_atelier::protocol::PARSE_ERROR;
use fabric_atelier::server::McpServer;
use fabric_atelier::transport::{
    classify_line, frame, next_action, parse_error, respond, Action, Event, LineAction,
};
use std::path::PathBuf;

fn object(members: Vec<(&str, Json)>) -> Json {
    Json::Object(members.into_iter().map(|(k, v)| (k.to_string(), v)).collect())
}

fn server() -> McpServer {
    McpServer::with_patterns(
        Settings::default(),
        PatternLoader::with_directory(PathBuf::new()),
        vec![],
    )
}

fn initialize(id: Json) -> Json {
    object(vec![
        ("jsonrpc", Json::string("2.0")),
        ("id", id),
        ("method", Json::string("initialize")),
    ])
}

#[test]
fn test_stdio_module_exists() {
    assert!(true);
}

#[test]
fn lines_are_classified() {
    assert_eq!(classify_line(0, ""), LineAction::Stop);
    assert_eq!(classify_line(1, "\n"), LineAction::Skip);
    assert_eq!(classify_line(5, "  \t\r\n"), LineAction::Skip);
    assert_eq!(classify_line(3, "{}\n"), LineAction::Process);
    assert_eq!(classify_line(2, " x"), LineAction::Process);
}

#[test]
fn unparseable_line_gets_a_parse_error_for_the_null_id() {
    let response = respond(&server(), Err("expected value at line 1 column 1".to_string()));
    assert_eq!(response.id, Json::Null);
    assert!(response.result.is_none());
    let error = response.error.unwrap();
    assert_eq!(error.code, -32700);
    assert_eq!(error.code, PARSE_ERROR);
    assert_eq!(error.message, "Parse error: expected value at line 1 column 1");
}

#[test]
fn json_that_is_no_request_gets_a_parse_error() {
    let response = respond(&server(), Ok(object(vec![("id", Json::integer(5))])));
    assert_eq!(response.id, Json::Null);
    let error = response.error.unwrap();
    assert_eq!(error.code, -32700);
    assert_eq!(error.message, "Parse error: missing field `jsonrpc`");
}

#[test]
fn request_is_answered_by_the_server() {
    let response = respond(&server(), Ok(initialize(Json::integer(5))));
    assert_eq!(response.id, Json::integer(5));
    assert!(response.error.is_none());
    assert!(response.result.is_some());
}

#[test]
fn parse_error_is_exact() {
    let response = parse_error("why");
    assert_eq!(response.error.unwrap().message, "Parse error: why");
}

#[test]
fn frame_adds_one_line_feed() {
    assert_eq!(frame("{}".to_string()), "{}\n");
    assert_eq!(frame(String::new()), "\n");
}

#[test]
fn the_loop_goes_read_parse_encode_write_read() {
    let server = server();
    let line = "{\"jsonrpc\":\"2.0\",\"id\":1,\"method\":\"initialize\"}\n".to_string();
    match next_action(&server, Event::LineRead { bytes_read: line.len(), line: line.clone() }) {
        Action::Parse(l) => assert_eq!(l, line),
        other => panic!("unexpected {other:?}"),
    }
    match next_action(&server, Event::Parsed(Ok(initialize(Json::integer(1))))) {
        Action::Encode(json) => {
            assert_eq!(json.get("id"), Some(&Json::integer(1)));
            assert!(json.get("result").is_some());
            assert!(json.get("error").is_none());
        }
        other => panic!("unexpected {other:?}"),
    }
    match next_action(&server, Event::Encoded(Ok("{\"id\":1}".to_string()))) {
        Action::Write(l) => assert_eq!(l, "{\"id\":1}\n"),
        other => panic!("unexpected {other:?}"),
    }
    assert!(matches!(next_action(&server, Event::Written(true)), Action::ReadLine));
}

#[test]
fn blank_lines_are_skipped_and_end_of_input_stops() {
    let server = server();
    assert!(matches!(
        next_action(&server, Event::LineRead { bytes_read: 3, line: "  \n".to_string() }),
        Action::ReadLine
    ));
    assert!(matches!(
        next_action(&server, Event::LineRead { bytes_read: 0, line: String::new() }),
        Action::Shutdown
    ));
}

#[test]
fn stream_failures_end_the_loop() {
    let server = server();
    assert!(matches!(next_action(&server, Event::ReadFailed), Action::Shutdown));
    assert!(matches!(next_action(&server, Event::Written(false)), Action::Shutdown));
    assert!(matches!(
        next_action(&server, Event::Encoded(Err("cannot".to_string()))),
        Action::Shutdown
    ));
}

#[test]
fn bad_requests_never_end_the_loop() {
    let server = server();
    match next_action(&server, Event::Parsed(Err("eof".to_string()))) {
        Action::Encode(json) => {
            assert_eq!(json.get("id"), Some(&Json::Null));
            assert!(json.get("result").is_none());
            let error = json.get("error").unwrap();
            assert_eq!(error.get("code"), Some(&Json::integer(-32700)));
            assert_eq!(error.get("message"), Some(&Json::string("Parse error: eof")));
        }
        other => panic!("unexpected {other:?}"),
    }
}
