use ripht_php_sapi::executor::assemble;
use ripht_php_sapi::paths::{parse_uri, path_file_name, path_parent};
use ripht_php_sapi::server_context::Written;
use ripht_php_sapi::{
    BufferPolicy, EngineState, ExecutionContext, ExecutionError, ExecutionMessage, ExecutionResult,
    Method, OutputAction, ResponseHeader, RiphtSapi, SapiError, ServerContext, SyslogLevel,
    WebRequest, WebRequestError,
};

fn context(streaming: bool) -> ServerContext {
    ServerContext::new(ExecutionContext::script("/s.php"), BufferPolicy::from_settings(None, None), streaming)
}

#[test]
fn singleton_startup_runs_once() {
    let mut sapi = RiphtSapi::new();
    let mut startups = 0;
    for _ in 0..2 {
        if sapi.needs_startup() {
            startups += 1;
            sapi.record_startup(true);
        }
    }
    assert_eq!(startups, 1);
    assert!(sapi.is_initialized());
    assert_eq!(sapi.state(), EngineState::Ready);
    assert!(sapi.init_result().is_ok());
    sapi.shutdown();
    assert!(!sapi.is_initialized());
    assert!(!sapi.needs_startup());
    assert!(sapi.executor().is_err());
}

#[test]
fn failed_startup_is_kept() {
    let mut sapi = RiphtSapi::new();
    sapi.record_startup(false);
    assert!(!sapi.needs_startup());
    match sapi.init_result() {
        Err(SapiError::InitializationFailed(m)) => assert_eq!(m, "SAPI module initialization failed"),
        _ => panic!("Expected InitializationFailed"),
    }
}

#[test]
fn writes_concatenate_into_the_body() {
    let mut ctx = context(false);
    let writes: Vec<&[u8]> = vec![b"alpha", b"", b"-beta-", b"\x00\xff"];
    for w in &writes {
        assert_eq!(ctx.write_output(w), Written::Buffered(w.len()));
    }
    let result = assemble(ctx, &Vec::new(), OutputAction::Buffer);
    assert_eq!(result.body(), b"alpha-beta-\x00\xff".to_vec());
}

#[test]
fn handled_output_leaves_the_body_empty() {
    let mut ctx = context(false);
    ctx.write_output(b"abc");
    let result = assemble(ctx, &Vec::new(), OutputAction::Handled);
    assert!(result.body().is_empty());
}

#[test]
fn verdicts_filter_headers_in_order() {
    let mut ctx = context(false);
    ctx.send_header(b"A: 1");
    ctx.send_header(b"B: 2");
    ctx.send_header(b"C: 3");
    ctx.log_message("warn".to_string(), 4);
    let result = assemble(ctx, &vec![true, false, true], OutputAction::Buffer);
    let names: Vec<&str> = result.all_headers().iter().map(|h| h.name()).collect();
    assert_eq!(names, vec!["A", "C"]);
    assert_eq!(result.all_messages().len(), 1);
    assert!(result.has_message_level(SyslogLevel::Warning));
    assert!(!result.has_errors());
}

#[test]
fn same_header_three_times_gives_three_entries() {
    let mut ctx = context(false);
    for v in ["one", "two", "three"] {
        ctx.send_header(format!("X-Dup: {}", v).as_bytes());
    }
    assert_eq!(ctx.headers().len(), 3);
    let result = ctx.into_result(Vec::new());
    assert_eq!(result.header_vals("x-dup"), vec!["one", "two", "three"]);
    assert_eq!(result.header_val("X-DUP"), Some("one"));
}

#[test]
fn result_accessors() {
    let mut r = ExecutionResult::new(
        404,
        b"caf\xc3\xa9".to_vec(),
        vec![ResponseHeader::new("Content-Type".to_string(), "text/plain".to_string())],
        vec![
            ExecutionMessage::from_syslog(3, "boom".to_string()),
            ExecutionMessage::new(SyslogLevel::Notice, "fyi".to_string()),
        ],
    );
    assert_eq!(r.status_code(), 404);
    assert!(r.is_client_error());
    assert!(!r.is_success() && !r.is_redirect() && !r.is_server_error());
    assert_eq!(r.body_string(), "café");
    assert_eq!(r.body_str().unwrap(), "café");
    assert_eq!(r.header_val("content-type"), Some("text/plain"));
    assert_eq!(r.header_val("missing"), None);
    assert!(r.has_errors());
    assert_eq!(r.errors().len(), 1);
    assert_eq!(r.errors()[0].message, "boom");
    assert_eq!(r.take_body(), b"caf\xc3\xa9".to_vec());
    assert!(r.body().is_empty());
    let bad = ExecutionResult::new(200, vec![0xff], Vec::new(), Vec::new());
    assert!(bad.body_str().is_err());
    assert_eq!(bad.body_string(), "\u{FFFD}");
    let d = ExecutionResult::default();
    assert_eq!(d.status_code(), 200);
    assert!(d.body_string().is_empty());
}

#[test]
fn syslog_levels() {
    assert_eq!(SyslogLevel::from_raw(-5), SyslogLevel::Emergency);
    assert_eq!(SyslogLevel::from_raw(3), SyslogLevel::Error);
    assert_eq!(SyslogLevel::from_raw(99), SyslogLevel::Debug);
    assert_eq!(SyslogLevel::from(6), SyslogLevel::Info);
    assert_eq!(i32::from(SyslogLevel::Warning), 4);
    assert_eq!(SyslogLevel::Critical.as_str(), "crit");
    assert!(SyslogLevel::Error.is_error_or_worse());
    assert!(!SyslogLevel::Warning.is_error_or_worse());
    assert!(SyslogLevel::Warning.is_warning_or_worse());
    assert!(!SyslogLevel::Notice.is_warning_or_worse());
    let m = ExecutionMessage::new(SyslogLevel::Warning, "careful".to_string());
    assert!(m.is_warning() && m.is_warning_or_worse() && !m.is_error());
    assert_eq!(m.to_string(), "[warning] careful");
}

#[test]
fn error_sentences() {
    assert_eq!(ExecutionError::NotInitialized.to_string(), "PHP engine not initialized");
    assert_eq!(ExecutionError::StartupFailed.to_string(), "Request startup failed");
    assert_eq!(ExecutionError::ScriptNotFound("/x.php".to_string()).to_string(), "Script not found: /x.php");
    assert_eq!(ExecutionError::InvalidPath("bad".to_string()).to_string(), "Invalid path: bad");
    assert_eq!(SapiError::InvalidIniKey.to_string(), "INI key contains null byte");
    assert_eq!(SapiError::IniSetFailed("k".to_string()).to_string(), "Failed to set INI: k");
    assert_eq!(WebRequestError::MissingMethod.to_string(), "HTTP method not specified");
    assert_eq!(WebRequestError::InvalidMethod("FOO".to_string()).to_string(), "Invalid HTTP method: FOO");
}

#[test]
fn test_set_ini_invalid_key() {
    let sapi = RiphtSapi::new();
    let result = sapi.check_ini(b"key\0with\0nulls", b"value");
    assert!(result.is_err(), "set_ini should fail for key with null bytes");
    assert!(matches!(result, Err(SapiError::InvalidIniKey)));
}

#[test]
fn test_set_ini_invalid_value() {
    let sapi = RiphtSapi::new();
    let result = sapi.check_ini(b"memory_limit", b"value\0with\0nulls");
    assert!(result.is_err(), "set_ini should fail for value with null bytes");
    assert!(matches!(result, Err(SapiError::InvalidIniValue)));
    assert!(sapi.check_ini(b"memory_limit", b"256M").is_ok());
    match RiphtSapi::ini_failure(b"memory_limit") {
        SapiError::IniSetFailed(k) => assert_eq!(k, "memory_limit"),
        _ => panic!("Expected IniSetFailed"),
    }
    match RiphtSapi::ini_failure(b"\xff") {
        SapiError::IniSetFailed(k) => assert_eq!(k, ""),
        _ => panic!("Expected IniSetFailed"),
    }
}

#[test]
fn methods_by_name() {
    assert_eq!(Method::from_name("get").unwrap(), Method::Get);
    assert_eq!(Method::from_name("Options").unwrap(), Method::Options);
    assert_eq!(Method::Patch.as_str(), "PATCH");
    assert_eq!(Method::from_name("FETCH").unwrap_err(), "Invalid HTTP method: FETCH");
}

#[test]
fn web_request_defaults_and_shaping() {
    let path = "/var/www/site/index.php";
    let ctx = WebRequest::get()
        .with_cookie("a", "1")
        .with_cookies(vec![("b".to_string(), "2".to_string())])
        .with_header("Content-Type", "text/plain")
        .with_body(b"xyz".to_vec())
        .with_server_port(8443)
        .build_at(path, Some(path.to_string()), 7, 0)
        .unwrap();
    let v = ctx.server_vars.into_vec();
    let get = |k: &str| v.iter().rev().find(|(n, _)| n == k).map(|(_, x)| x.clone());
    assert_eq!(get("REQUEST_URI"), Some("/index.php".to_string()));
    assert_eq!(get("SCRIPT_NAME"), Some("/index.php".to_string()));
    assert_eq!(get("DOCUMENT_ROOT"), Some("/var/www/site".to_string()));
    assert_eq!(get("QUERY_STRING"), Some("".to_string()));
    assert_eq!(get("HTTP_COOKIE"), Some("a=1; b=2".to_string()));
    assert_eq!(get("CONTENT_TYPE"), Some("text/plain".to_string()));
    assert_eq!(get("CONTENT_LENGTH"), Some("3".to_string()));
    assert_eq!(get("SERVER_PORT"), Some("8443".to_string()));
    assert_eq!(get("SERVER_NAME"), Some("localhost".to_string()));
    assert_eq!(get("REQUEST_SCHEME"), Some("http".to_string()));
    assert_eq!(get("REQUEST_TIME"), Some("7".to_string()));
    assert_eq!(v.iter().filter(|(n, _)| n == "CONTENT_TYPE").count(), 1);
    let root = WebRequest::get().build_at("/index.php", Some("/index.php".to_string()), 0, 0).unwrap();
    let rv = root.server_vars.into_vec();
    assert!(rv.contains(&("DOCUMENT_ROOT".to_string(), "/".to_string())));
}

#[test]
fn web_request_errors() {
    assert!(matches!(
        WebRequest::default().build("/x.php", Some("/x.php".to_string())),
        Err(WebRequestError::MissingMethod)
    ));
    match WebRequest::post().build("/missing.php", None) {
        Err(WebRequestError::ScriptNotFound(p)) => assert_eq!(p, "/missing.php"),
        _ => panic!("Expected ScriptNotFound"),
    }
}

#[test]
fn description_escapes_and_cuts() {
    let long = "v".repeat(70);
    let ctx = ExecutionContext::script("/s.php")
        .var("A", "tab\there\u{1}")
        .var("LONG", &long)
        .input(b"12345".to_vec());
    let d = ctx.describe();
    let expected = format!(
        "ExecutionContext {{\n  script: /s.php\n  server_vars: [\n    A = \"tab\there\\x01\"\n    LONG = \"{}...\"\n  ]\n  input: 5 bytes\n}}",
        "v".repeat(57)
    );
    assert_eq!(d, expected);
    let empty = ExecutionContext::script("/e.php").describe();
    assert_eq!(empty, "ExecutionContext {\n  script: /e.php\n  server_vars: []\n  input: 0 bytes\n}");
    let mut many = ExecutionContext::script("/m.php");
    for i in 0..17 {
        many = many.var(&format!("K{}", i), "v");
    }
    let md = many.describe();
    assert!(md.contains("    K14 = \"v\"\n    ... (2 more)\n  ]\n"));
    assert!(!md.contains("K15"));
}

#[test]
fn paths_split() {
    assert_eq!(parse_uri("/a/b?x=1?y"), ("/a/b".to_string(), Some("x=1?y".to_string())));
    assert_eq!(parse_uri("/plain"), ("/plain".to_string(), None));
    assert_eq!(path_file_name("/srv/www/index.php"), "index.php");
    assert_eq!(path_parent("/srv/www/index.php"), "/srv/www");
    assert_eq!(path_parent("/index.php"), "/");
    assert_eq!(path_file_name("/"), "");
}
