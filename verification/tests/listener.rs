use maypaper::event::{Ipc, IpcEvent, RequestServer, RequestWebview, TokioEvent};
use maypaper::ipc::{forward, ipc_server, IpcError, Line, Member};

fn text(s: &str) -> Option<Member> {
    Some(Member::Text(s.to_string()))
}

fn request_server(path: &str, connector: Option<&str>) -> Line {
    Line::Forward(TokioEvent::IpcEvent(IpcEvent::RequestServer(RequestServer {
        path: path.to_string(),
        connector: connector.map(|c| c.to_string()),
    })))
}

fn request_webview(url: &str, connector: Option<&str>) -> Line {
    Line::Forward(TokioEvent::IpcEvent(IpcEvent::RequestWebview(RequestWebview {
        url: url.to_string(),
        connector: connector.map(|c| c.to_string()),
    })))
}

#[test]
fn malformed_line_does_not_stop_the_next() {
    let lines = ["not json", r#"{"type":"set_path","monitor":null,"path":"/tmp/x"}"#];
    let read: Vec<Line> = lines.iter().map(|l| ipc_server(l)).collect();
    assert_eq!(read[0], Line::Rejected(IpcError::NotJson));
    assert_eq!(read[1], request_server("/tmp/x", None));
}

#[test]
fn set_path_names_the_monitor() {
    assert_eq!(
        ipc_server(r#"{"type":"set_path","monitor":"HDMI-A-1","path":"/srv/site"}"#),
        request_server("/srv/site", Some("HDMI-A-1"))
    );
}

#[test]
fn set_url_is_forwarded_as_a_request_for_the_displays() {
    assert_eq!(
        ipc_server(r#"{"type":"set_url","monitor":"DP-1","url":"https://example.org/"}"#),
        request_webview("https://example.org/", Some("DP-1"))
    );
    assert_eq!(
        ipc_server(r#"{"type":"set_url","monitor":null,"url":"https://example.org/"}"#),
        request_webview("https://example.org/", None)
    );
}

#[test]
fn monitor_may_be_left_out() {
    assert_eq!(ipc_server(r#"{"type":"set_path","path":"/tmp/x"}"#), request_server("/tmp/x", None));
    assert_eq!(ipc_server(r#"{"url":"u","type":"set_url"}"#), request_webview("u", None));
}

#[test]
fn members_of_other_names_are_passed_over() {
    assert_eq!(
        ipc_server(r#"{"type":"set_path","path":"/tmp/x","url":7,"volume":[1,2],"monitor":"A"}"#),
        request_server("/tmp/x", Some("A"))
    );
}

#[test]
fn blank_lines_are_passed_over() {
    assert_eq!(ipc_server(""), Line::Blank);
    assert_eq!(ipc_server("   \t "), Line::Blank);
    assert_eq!(ipc_server("\r\n"), Line::Blank);
    assert_eq!(ipc_server("\u{00a0}\u{3000}\u{2028}"), Line::Blank);
}

#[test]
fn white_space_around_a_request_does_not_count() {
    assert_eq!(
        ipc_server("  \t{\"type\":\"set_path\",\"monitor\":null,\"path\":\"/tmp/x\"} \r\n"),
        request_server("/tmp/x", None)
    );
    assert_eq!(
        ipc_server("\u{00a0}{\"type\":\"set_url\",\"url\":\"u\"}\u{2003}"),
        request_webview("u", None)
    );
}

#[test]
fn white_space_inside_a_text_stays() {
    assert_eq!(
        ipc_server(r#"{"type":"set_path","monitor":" A ","path":" /tmp/my site "}"#),
        request_server(" /tmp/my site ", Some(" A "))
    );
}

#[test]
fn text_that_is_not_json_is_rejected() {
    assert_eq!(ipc_server("{"), Line::Rejected(IpcError::NotJson));
    assert_eq!(ipc_server(r#"{"type":"set_path","path":"/tmp/x"} trailing"#), Line::Rejected(IpcError::NotJson));
    assert_eq!(ipc_server("set_path /tmp/x"), Line::Rejected(IpcError::NotJson));
    assert_eq!(ipc_server("\u{200b}"), Line::Rejected(IpcError::NotJson));
}

#[test]
fn a_request_needs_a_type() {
    assert_eq!(ipc_server(r#"{"monitor":null,"path":"/tmp/x"}"#), Line::Rejected(IpcError::NoType));
    assert_eq!(ipc_server(r#"{"type":3,"path":"/tmp/x"}"#), Line::Rejected(IpcError::NoType));
    assert_eq!(ipc_server(r#"{"type":null,"path":"/tmp/x"}"#), Line::Rejected(IpcError::NoType));
    assert_eq!(ipc_server("{}"), Line::Rejected(IpcError::NoType));
}

#[test]
fn a_value_that_is_no_object_has_no_type() {
    assert_eq!(ipc_server("42"), Line::Rejected(IpcError::NoType));
    assert_eq!(ipc_server("null"), Line::Rejected(IpcError::NoType));
    assert_eq!(ipc_server(r#""set_path""#), Line::Rejected(IpcError::NoType));
    assert_eq!(ipc_server(r#"["set_path",null,"/tmp/x"]"#), Line::Rejected(IpcError::NoType));
}

#[test]
fn other_types_are_rejected() {
    assert_eq!(ipc_server(r#"{"type":"set","monitor":0,"uri":"u"}"#), Line::Rejected(IpcError::UnknownType));
    assert_eq!(ipc_server(r#"{"type":"reload","monitor":null}"#), Line::Rejected(IpcError::UnknownType));
    assert_eq!(ipc_server(r#"{"type":"SetPath","path":"/tmp/x"}"#), Line::Rejected(IpcError::UnknownType));
    assert_eq!(ipc_server(r#"{"type":"set_path ","path":"/tmp/x"}"#), Line::Rejected(IpcError::UnknownType));
    assert_eq!(ipc_server(r#"{"type":"","path":"/tmp/x"}"#), Line::Rejected(IpcError::UnknownType));
}

#[test]
fn a_monitor_is_a_text_or_null() {
    assert_eq!(ipc_server(r#"{"type":"set_path","monitor":1,"path":"/tmp/x"}"#), Line::Rejected(IpcError::BadMonitor));
    assert_eq!(ipc_server(r#"{"type":"set_url","monitor":["A"],"url":"u"}"#), Line::Rejected(IpcError::BadMonitor));
    assert_eq!(ipc_server(r#"{"type":"set_url","monitor":{"name":"A"},"url":"u"}"#), Line::Rejected(IpcError::BadMonitor));
    assert_eq!(ipc_server(r#"{"type":"set_url","monitor":false,"url":"u"}"#), Line::Rejected(IpcError::BadMonitor));
}

#[test]
fn a_bad_monitor_is_reported_before_a_missing_path() {
    assert_eq!(ipc_server(r#"{"type":"set_path","monitor":1}"#), Line::Rejected(IpcError::BadMonitor));
}

#[test]
fn set_path_needs_a_path() {
    assert_eq!(ipc_server(r#"{"type":"set_path","monitor":null}"#), Line::Rejected(IpcError::NoPath));
    assert_eq!(ipc_server(r#"{"type":"set_path","path":null}"#), Line::Rejected(IpcError::NoPath));
    assert_eq!(ipc_server(r#"{"type":"set_path","path":12}"#), Line::Rejected(IpcError::NoPath));
    assert_eq!(ipc_server(r#"{"type":"set_path","url":"u"}"#), Line::Rejected(IpcError::NoPath));
}

#[test]
fn set_url_needs_a_url() {
    assert_eq!(ipc_server(r#"{"type":"set_url","monitor":null}"#), Line::Rejected(IpcError::NoUrl));
    assert_eq!(ipc_server(r#"{"type":"set_url","url":true}"#), Line::Rejected(IpcError::NoUrl));
    assert_eq!(ipc_server(r#"{"type":"set_url","path":"/tmp/x"}"#), Line::Rejected(IpcError::NoUrl));
}

#[test]
fn escapes_in_a_text_are_resolved() {
    assert_eq!(
        ipc_server(r#"{"type":"set_path","path":"/tmp/a b\\c\"d"}"#),
        request_server("/tmp/a b\\c\"d", None)
    );
}

#[test]
fn decode_reads_a_request_from_text() {
    assert_eq!(
        Ipc::decode(r#"{"type":"set_path","monitor":"A","path":"/p"}"#),
        Ok(Ipc::SetPath { monitor: Some("A".to_string()), path: "/p".to_string() })
    );
    assert_eq!(
        Ipc::decode(r#"{"type":"set_url","url":"u"}"#),
        Ok(Ipc::SetUrl { monitor: None, url: "u".to_string() })
    );
    assert_eq!(Ipc::decode(" "), Err(IpcError::NotJson));
}

#[test]
fn from_members_reads_each_kind_of_member() {
    assert_eq!(
        Ipc::from_members(text("set_path"), Some(Member::Null), text("/p"), None),
        Ok(Ipc::SetPath { monitor: None, path: "/p".to_string() })
    );
    assert_eq!(
        Ipc::from_members(text("set_url"), text("DP-1"), text("/p"), text("u")),
        Ok(Ipc::SetUrl { monitor: Some("DP-1".to_string()), url: "u".to_string() })
    );
    assert_eq!(Ipc::from_members(None, None, text("/p"), None), Err(IpcError::NoType));
    assert_eq!(Ipc::from_members(Some(Member::Object), None, text("/p"), None), Err(IpcError::NoType));
    assert_eq!(Ipc::from_members(text("other"), None, text("/p"), None), Err(IpcError::UnknownType));
    assert_eq!(Ipc::from_members(text("set_path"), Some(Member::Bool), text("/p"), None), Err(IpcError::BadMonitor));
    assert_eq!(Ipc::from_members(text("set_path"), Some(Member::Array), text("/p"), None), Err(IpcError::BadMonitor));
    assert_eq!(Ipc::from_members(text("set_path"), None, Some(Member::Number), text("u")), Err(IpcError::NoPath));
    assert_eq!(Ipc::from_members(text("set_url"), None, text("/p"), Some(Member::Null)), Err(IpcError::NoUrl));
}

#[test]
fn forward_keeps_what_the_request_says() {
    assert_eq!(
        forward(Ipc::SetPath { monitor: Some("A".to_string()), path: "/p".to_string() }),
        TokioEvent::IpcEvent(IpcEvent::RequestServer(RequestServer {
            path: "/p".to_string(),
            connector: Some("A".to_string()),
        }))
    );
    assert_eq!(
        forward(Ipc::SetUrl { monitor: None, url: "u".to_string() }),
        TokioEvent::IpcEvent(IpcEvent::RequestWebview(RequestWebview { url: "u".to_string(), connector: None }))
    );
}

#[test]
fn of_members_of_one_name_the_last_counts() {
    assert_eq!(
        ipc_server(r#"{"type":"set_url","type":"set_path","path":"/a","path":"/b"}"#),
        request_server("/b", None)
    );
    assert_eq!(
        ipc_server(r#"{"type":"set_path","path":"/a","monitor":"A","monitor":null}"#),
        request_server("/a", None)
    );
}
