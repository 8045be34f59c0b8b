use std::collections::HashMap;

use ripht_php_sapi::server_vars::{padded_six, underscored};
use ripht_php_sapi::ServerVars;

fn to_map(vars: ServerVars) -> HashMap<String, String> {
    vars.into_vec().into_iter().collect()
}

#[test]
fn test_server_vars_builder_basic() {
    let mut vars = ServerVars::new();

    vars.request_method("POST").request_uri("/test").query_string("foo=bar");

    assert_eq!(vars.len(), 3);
    assert_eq!(vars.get_request_method(), Some("POST"));
    assert_eq!(vars.get_query_string(), Some("foo=bar"));
}

#[test]
fn test_server_vars_tracks_special_vars() {
    let mut vars = ServerVars::new();

    vars.set("CONTENT_TYPE", "application/json")
        .set("HTTP_COOKIE", "session=abc123")
        .set("QUERY_STRING", "id=1")
        .set("REQUEST_METHOD", "GET");

    assert_eq!(vars.get_content_type(), Some("application/json"));
    assert_eq!(vars.get_cookie(), Some("session=abc123"));
    assert_eq!(vars.get_query_string(), Some("id=1"));
    assert_eq!(vars.get_request_method(), Some("GET"));
}

#[test]
fn test_http_header_transformation() {
    let mut vars = ServerVars::new();
    vars.http_header("Content-Type", "text/html")
        .http_header("Content-Length", "100")
        .http_header("X-Custom-Header", "value")
        .http_header("Accept-Encoding", "gzip");

    let map = to_map(vars);

    assert_eq!(map.get("CONTENT_TYPE"), Some(&"text/html".to_string()));
    assert_eq!(map.get("CONTENT_LENGTH"), Some(&"100".to_string()));
    assert_eq!(map.get("HTTP_X_CUSTOM_HEADER"), Some(&"value".to_string()));
    assert_eq!(map.get("HTTP_ACCEPT_ENCODING"), Some(&"gzip".to_string()));
}

#[test]
fn test_web_defaults() {
    let map = to_map(ServerVars::web_defaults());

    assert!(map.contains_key("REQUEST_TIME"));
    assert!(map.contains_key("REQUEST_TIME_FLOAT"));
    assert_eq!(map.get("GATEWAY_INTERFACE"), Some(&"CGI/1.1".to_string()));
}

#[test]
fn test_cli_defaults() {
    let map = to_map(ServerVars::cli_defaults());

    assert!(map.contains_key("REQUEST_TIME"));
    assert_eq!(map.get("DOCUMENT_ROOT"), Some(&"".to_string()));
    assert!(!map.contains_key("GATEWAY_INTERFACE"));
}

#[test]
fn test_https_sets_scheme() {
    let mut vars_https = ServerVars::new();
    vars_https.https(true);

    let mut vars_http = ServerVars::new();
    vars_http.https(false);

    let https_map = to_map(vars_https);
    let http_map = to_map(vars_http);

    assert_eq!(https_map.get("HTTPS"), Some(&"on".to_string()));
    assert_eq!(https_map.get("REQUEST_SCHEME"), Some(&"https".to_string()));
    assert_eq!(http_map.get("REQUEST_SCHEME"), Some(&"http".to_string()));
    assert!(!http_map.contains_key("HTTPS"));
}

#[test]
fn test_path_info_sets_translated() {
    let mut vars = ServerVars::new();
    vars.path_info("/extra/path", "/var/www");

    let map = to_map(vars);

    assert_eq!(map.get("PATH_INFO"), Some(&"/extra/path".to_string()));
    assert_eq!(map.get("PATH_TRANSLATED"), Some(&"/var/www/extra/path".to_string()));
}

#[test]
fn test_script_name_sets_php_self() {
    let mut vars = ServerVars::new();
    vars.script_name("/index.php");

    let map = to_map(vars);

    assert_eq!(map.get("SCRIPT_NAME"), Some(&"/index.php".to_string()));
    assert_eq!(map.get("PHP_SELF"), Some(&"/index.php".to_string()));
}

#[test]
fn request_time_at_renders_seconds_and_fraction() {
    let vars = ServerVars::web_defaults_at(1_700_000_000, 42);
    let v = vars.into_vec();
    assert_eq!(v.len(), 3);
    assert_eq!(v[0], ("GATEWAY_INTERFACE".to_string(), "CGI/1.1".to_string()));
    assert_eq!(v[1], ("REQUEST_TIME".to_string(), "1700000000".to_string()));
    assert_eq!(v[2], ("REQUEST_TIME_FLOAT".to_string(), "1700000000.000042".to_string()));
}

#[test]
fn numbers_are_rendered_in_decimal() {
    let mut vars = ServerVars::new();
    vars.server_port(8080).remote_port(0).content_length(1234567).argc(3);
    let v = vars.into_vec();
    assert_eq!(v[0].1, "8080");
    assert_eq!(v[1].1, "0");
    assert_eq!(v[2].1, "1234567");
    assert_eq!(v[3], ("argc".to_string(), "3".to_string()));
}

#[test]
fn repeated_names_are_kept_and_the_last_one_is_tracked() {
    let mut vars = ServerVars::new();
    vars.query_string("a=1").query_string("b=2");
    assert_eq!(vars.len(), 2);
    assert_eq!(vars.get_query_string(), Some("b=2"));
    assert_eq!(vars.get_cookie(), None);
    assert!(!vars.is_empty());
}

#[test]
fn http_header_uppercases_and_maps_dashes() {
    let mut vars = ServerVars::new();
    vars.http_header("content-type", "x").http_header("x-ünï", "y");
    let v = vars.into_vec();
    assert_eq!(v[0].0, "CONTENT_TYPE");
    assert_eq!(v[1].0, "HTTP_X_ÜNÏ");
}

#[test]
fn extend_appends_in_order() {
    let mut vars = ServerVars::new();
    vars.extend(vec![
        ("A".to_string(), "1".to_string()),
        ("CONTENT_TYPE".to_string(), "text/plain".to_string()),
    ]);
    assert_eq!(vars.len(), 2);
    assert_eq!(vars.iter()[0].0, "A");
    assert_eq!(vars.get_content_type(), Some("text/plain"));
}

#[test]
fn helpers_pad_and_underscore() {
    assert_eq!(padded_six(7), "000007");
    assert_eq!(padded_six(999999), "999999");
    assert_eq!(underscored("a-b--c"), "a_b__c");
}
