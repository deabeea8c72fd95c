use holdmybackup::http::handler::{
    backup_accepted_reply, filter_reply, list_reply, message_body, not_found_reply, parse_filter,
    response_body,
};
use holdmybackup::http::filter::parsable_filter_text;
use holdmybackup::http::{route, HttpMethod, Route};

#[test]
fn routes_of_the_api() {
    assert_eq!(route(HttpMethod::Post, "/backup"), Route::CreateBackup);
    assert_eq!(route(HttpMethod::Get, "/list"), Route::ListBackups);
    assert_eq!(route(HttpMethod::Put, "/filter"), Route::Filter);
    assert_eq!(route(HttpMethod::Get, "/serverInfo"), Route::ServerInfo);
}

#[test]
fn other_requests_are_not_found() {
    assert_eq!(route(HttpMethod::Get, "/backup"), Route::NotFound);
    assert_eq!(route(HttpMethod::Post, "/list"), Route::NotFound);
    assert_eq!(route(HttpMethod::Get, "/filter"), Route::NotFound);
    assert_eq!(route(HttpMethod::Other, "/backup"), Route::NotFound);
    assert_eq!(route(HttpMethod::Get, "/"), Route::NotFound);
    assert_eq!(route(HttpMethod::Get, "/list/"), Route::NotFound);
    assert_eq!(route(HttpMethod::Get, "/serverinfo"), Route::NotFound);
}

#[test]
fn backup_request_is_recorded() {
    let reply = backup_accepted_reply();
    assert_eq!(reply.status, 200);
    assert_eq!(reply.body, r#"{"response":"Your backup request's been recorded."}"#);
}

#[test]
fn list_body_is_json_array() {
    let keys = vec!["a/a-1.tar.gz".to_string(), "b\"q".to_string()];
    let reply = list_reply(&keys);
    assert_eq!(reply.status, 200);
    assert_eq!(reply.body, r#"{"response":["a/a-1.tar.gz","b\"q"]}"#);
    assert_eq!(list_reply(&vec![]).body, r#"{"response":[]}"#);
}

#[test]
fn message_body_escapes() {
    assert_eq!(message_body("a\nb"), "{\"response\":\"a\\nb\"}");
    assert_eq!(response_body("1"), "{\"response\":1}");
}

#[test]
fn message_body_follows_the_escape_table() {
    assert_eq!(
        message_body("q\"b\\t\tc\u{1}\u{1f}\u{8}\u{c}\r\u{7f}é/"),
        "{\"response\":\"q\\\"b\\\\t\\tc\\u0001\\u001f\\b\\f\\r\u{7f}é/\"}"
    );
    assert_eq!(message_body("plain"), "{\"response\":\"plain\"}");
}

#[test]
fn filter_reload_success() {
    let reply = filter_reply(Ok(()));
    assert_eq!(reply.status, 200);
    assert_eq!(reply.body, r#"{"response":"OK"}"#);
}

#[test]
fn filter_reload_failure_is_not_found() {
    let reply = filter_reply(Err("SubscriberGone".to_string()));
    assert_eq!(reply.status, 404);
    assert_eq!(reply.body, "Reloading error: SubscriberGone");
}

#[test]
fn filter_texts_parse() {
    assert!(parse_filter("").is_ok());
    assert!(parse_filter("trace,hyper=info,mio=info").is_ok());
    assert!(parse_filter("debug").is_ok());
}

#[test]
fn parsed_filter_keeps_its_text() {
    let p = parse_filter("trace,hyper=info").unwrap();
    assert_eq!(p.source(), "trace,hyper=info");
    let _filter = p.into_filter();
}

#[test]
fn documented_filters_parse() {
    assert!(parse_filter("trace,reload_config=trace,hyper=info,mio=info,serde_xml_rs=info").is_ok());
    assert!(parse_filter(
        "trace,reload_config=trace,hyper=error,mio=error,h2=error,tonic=error,serde_xml_rs=error"
    )
    .is_ok());
}

#[test]
fn each_offered_level_parses() {
    for level in ["trace", "debug", "info", "warn", "error"] {
        assert!(parse_filter(level).is_ok(), "{}", level);
    }
}

#[test]
fn leading_space_in_ascii_filter_is_handed_to_the_parser() {
    assert!(parsable_filter_text(" info, hyper=warn"));
    assert!(parse_filter(" info").is_ok());
    let err = parse_filter(" info, hyper=warn").err().unwrap();
    assert!(err.starts_with("Parsing filter error: "));
}

#[test]
fn leading_space_before_non_ascii_is_refused() {
    assert!(!parsable_filter_text(" é=x"));
    assert!(!parsable_filter_text("info,\u{a0}x=y"));
    assert!(parsable_filter_text("é=x"));
    let err = parse_filter(" é=x").err().unwrap();
    assert_eq!(
        err,
        "Parsing filter error: a directive with leading whitespace holds a non-ASCII character"
    );
}

#[test]
fn non_ascii_directive_beside_a_space_led_ascii_one_parses() {
    assert!(parsable_filter_text("é, info"));
    assert!(parse_filter("é, info").is_ok());
}

#[test]
fn bad_filter_is_refused() {
    let err = parse_filter("hyper=notalevel").err().unwrap();
    assert!(err.starts_with("Parsing filter error: "));
    assert!(err.len() > "Parsing filter error: ".len());
}

#[test]
fn unknown_request_reply() {
    let reply = not_found_reply();
    assert_eq!(reply.status, 404);
    assert_eq!(reply.body, "");
}
