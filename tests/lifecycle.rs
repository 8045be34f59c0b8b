//! Requests driven through the lifecycle with the engine's part played here:
//! each "script" is a closure that makes the calls the engine would make.

use std::cell::RefCell;
use std::rc::Rc;

use ripht_php_sapi::server_context::Written;
use ripht_php_sapi::{
    BufferPolicy, ExecutionContext, ExecutionError, ExecutionHooks, ExecutionResult,
    NoOpHooks, OutputAction, RiphtSapi, ServerContext, StreamingCallback, WebRequest,
};

/// The engine as a script sees it: output, headers sent on first output or
/// at the end, a status, diagnostics, input and meta-variables.
struct Engine<'a, 'b> {
    ctx: &'a mut ServerContext,
    sink: Option<&'b mut dyn FnMut(&[u8])>,
    pending: Vec<Vec<u8>>,
    status: i32,
    headers_sent: bool,
}

impl<'a, 'b> Engine<'a, 'b> {
    fn send_headers(&mut self) {
        if !self.headers_sent {
            self.headers_sent = true;
            self.ctx.send_headers(self.status);
            for line in &self.pending {
                self.ctx.send_header(line);
            }
        }
    }

    fn echo(&mut self, data: &[u8]) {
        self.send_headers();
        if let Written::Forward(_) = self.ctx.write_output(data) {
            if let Some(sink) = self.sink.as_mut() {
                sink(data);
            }
        }
    }

    fn header(&mut self, line: &str) {
        self.pending.push(line.as_bytes().to_vec());
    }

    fn header_remove(&mut self, name: &str) {
        let prefix = format!("{}:", name);
        self.pending.retain(|l| !l.starts_with(prefix.as_bytes()));
    }

    fn status(&mut self, code: i32) {
        self.status = code;
    }

    fn log(&mut self, text: &str, level: i32) {
        self.ctx.log_message(text.to_string(), level);
    }

    fn var(&self, key: &str) -> Option<String> {
        self.ctx
            .registration_list()
            .into_iter()
            .rev()
            .find(|(k, _)| k == key)
            .map(|(_, v)| v)
    }

    fn ini(&self, key: &str, default: &str) -> String {
        self.ctx
            .ini_overrides()
            .iter()
            .rev()
            .find(|(k, _)| k == key)
            .map(|(_, v)| v.clone())
            .unwrap_or_else(|| default.to_string())
    }

    fn read_all_input(&mut self) -> Vec<u8> {
        let mut all = Vec::new();
        let mut buf = [0u8; 4096];
        loop {
            let n = self.ctx.read_post(&mut buf);
            if n == 0 {
                break;
            }
            all.extend_from_slice(&buf[..n]);
        }
        all
    }
}

fn script_path(name: &str) -> String {
    format!("/srv/php_scripts/{}", name)
}

fn ready_engine() -> RiphtSapi {
    let mut sapi = RiphtSapi::new();
    if sapi.needs_startup() {
        sapi.record_startup(true);
    }
    sapi
}

/// Runs the request up to the engine's shutdown; the caller finishes it.
fn run_to_end<H: ExecutionHooks>(
    ctx: ExecutionContext,
    hooks: &mut H,
    sink: Option<&mut dyn FnMut(&[u8])>,
    script: impl FnOnce(&mut Engine),
) -> Result<ripht_php_sapi::Request, ExecutionError> {
    let sapi = ready_engine();
    let executor = sapi.executor().expect("engine ready");
    let streaming = sink.is_some();
    let mut req = executor.begin(true, ctx, BufferPolicy::from_settings(None, None), streaming)?;
    req.starting(hooks);
    req.started(true, hooks)?;
    {
        let mut engine = Engine {
            ctx: req.context_mut(),
            sink,
            pending: Vec::new(),
            status: 200,
            headers_sent: false,
        };
        script(&mut engine);
        engine.send_headers();
    }
    req.executed(true, hooks);
    Ok(req)
}

fn drive<H: ExecutionHooks>(
    ctx: ExecutionContext,
    hooks: &mut H,
    sink: Option<&mut dyn FnMut(&[u8])>,
    script: impl FnOnce(&mut Engine),
) -> Result<ExecutionResult, ExecutionError> {
    let streaming = sink.is_some();
    let req = run_to_end(ctx, hooks, sink, script)?;
    if streaming {
        Ok(req.finish_streaming())
    } else {
        Ok(req.finish(hooks))
    }
}

fn execute(ctx: ExecutionContext, script: impl FnOnce(&mut Engine)) -> Result<ExecutionResult, ExecutionError> {
    Ok(run_to_end(ctx, &mut NoOpHooks::new(), None, script)?.finish_buffered())
}

fn build(req: WebRequest, name: &str) -> ExecutionContext {
    let path = script_path(name);
    req.build(&path, Some(path.clone())).expect("failed to build WebRequest")
}

fn hello(e: &mut Engine) {
    e.echo(b"Hello, World");
}

fn large_output(e: &mut Engine) {
    let line = [b'x'; 1024];
    for _ in 0..1100 {
        e.echo(&line);
    }
}

fn post_form(e: &mut Engine) {
    let method = e.var("REQUEST_METHOD").unwrap_or_default();
    let body = e.read_all_input();
    e.header("Content-Type: application/json");
    e.echo(format!("{{\"method\":\"{}\",\"length\":{}}}", method, body.len()).as_bytes());
}

#[test]
fn execute_hello_php() {
    let exec = build(WebRequest::get(), "hello.php");
    match execute(exec, hello) {
        Ok(resp) => assert!(resp.body_string().contains("Hello")),
        Err(e) => panic!("Failed to execute script: {}", e.to_string()),
    }
}

#[test]
fn hello_world_result_is_exact() {
    let result = execute(build(WebRequest::get(), "hello.php"), hello).unwrap();
    assert_eq!(result.status_code(), 200);
    assert_eq!(result.body(), b"Hello, World".to_vec());
    assert!(result.all_headers().is_empty());
    assert!(result.all_messages().is_empty());
}

#[test]
fn post_request_works() {
    let exec = build(
        WebRequest::post()
            .with_content_type("application/x-www-form-urlencoded")
            .with_body(b"name=Jane%20Doe&email=jane%40example.com".to_vec()),
        "post_form.php",
    );
    let result = execute(exec, post_form).expect("POST request execution failed");
    assert_eq!(result.status_code(), 200);
    assert!(result.body_string().contains("\"method\":\"POST\""));
}

#[test]
fn stress_sequential_requests() {
    for i in 0..1000 {
        let exec = build(WebRequest::get().with_uri(&format!("/?i={}", i)), "hello.php");
        let result = execute(exec, hello).unwrap_or_else(|_| panic!("request {} execution failed", i));
        assert_eq!(result.status_code(), 200, "Request {} had non-200 status", i);
    }
}

#[test]
fn stress_large_output() {
    let result = execute(build(WebRequest::get(), "large_output.php"), large_output)
        .expect("large output request execution failed");
    assert!(
        result.body().len() >= 1024 * 1024,
        "Expected 1MB+ output, got {} bytes",
        result.body().len()
    );
}

#[test]
fn stress_mixed_methods() {
    for i in 0..500 {
        if i % 2 == 0 {
            let exec = build(WebRequest::get().with_uri(&format!("/?i={}", i)), "get_params.php");
            let result = execute(exec, |e| {
                let q = e.var("QUERY_STRING").unwrap_or_default();
                e.echo(q.as_bytes());
            })
            .unwrap_or_else(|_| panic!("GET request {} execution failed", i));
            assert_eq!(result.status_code(), 200);
            assert_eq!(result.body_string(), format!("i={}", i));
        } else {
            let exec = build(
                WebRequest::post()
                    .with_uri(&format!("/post?i={}", i))
                    .with_content_type("application/x-www-form-urlencoded")
                    .with_body(b"name=test&value=123".to_vec()),
                "post_form.php",
            );
            let result = execute(exec, post_form)
                .unwrap_or_else(|_| panic!("POST request {} execution failed", i));
            assert_eq!(result.status_code(), 200);
        }
    }
}

#[test]
fn test_context_isolation_between_requests() {
    for i in 0..5 {
        let exec = build(
            WebRequest::get()
                .with_uri(&format!("/test?request={}", i))
                .with_server_name(&format!("server{}", i))
                .with_remote_addr(&format!("127.0.0.{}", i)),
            "server_vars.php",
        );
        let result = execute(exec, |e| {
            let name = e.var("SERVER_NAME").unwrap_or_default();
            e.echo(name.as_bytes());
        })
        .unwrap_or_else(|_| panic!("request {} execution failed", i));
        assert_eq!(result.status_code(), 200);
        assert_eq!(
            result.body_string(),
            format!("server{}", i),
            "Request {} should have correct server_name",
            i
        );
    }
}

#[test]
fn test_cstring_pointer_validity_during_execution() {
    let query_string = "foo=bar&baz=qux";
    let exec = build(
        WebRequest::post()
            .with_uri(&format!("/test?{}", query_string))
            .with_content_type("application/x-www-form-urlencoded")
            .with_body(b"name=test".to_vec())
            .with_raw_cookie_header("session=abc123"),
        "post_form.php",
    );
    let result = execute(exec, |e| {
        assert_eq!(e.ctx.query_string(), Some("foo=bar&baz=qux"));
        assert_eq!(e.ctx.cookie_data(), Some("session=abc123"));
        assert_eq!(e.ctx.content_type(), Some("application/x-www-form-urlencoded"));
        assert_eq!(e.ctx.request_method(), "POST");
        assert_eq!(e.ctx.content_length(), 9);
        post_form(e);
    })
    .expect("POST request execution failed");
    assert_eq!(result.status_code(), 200);
}

#[test]
fn test_post_data_bounds_with_real_script() {
    let test_sizes = vec![0, 1, 100, 1024, 10 * 1024, 100 * 1024, 1024 * 1024];
    for size in test_sizes {
        let exec = build(
            WebRequest::post()
                .with_content_type("application/octet-stream")
                .with_body(vec![b'x'; size]),
            "large_input.php",
        );
        let result = execute(exec, |e| {
            let n = e.read_all_input().len();
            e.echo(n.to_string().as_bytes());
        })
        .unwrap_or_else(|_| panic!("request with {} bytes execution failed", size));
        assert_eq!(result.status_code(), 200);
        assert_eq!(result.body_string(), size.to_string(), "Input length should match for size {}", size);
    }
}

#[test]
fn test_header_parsing_with_real_php_headers() {
    let result = execute(build(WebRequest::get(), "headers.php"), |e| {
        e.header("Content-Type: application/json");
        e.header("X-Custom-Header: test-value");
        e.echo(b"{}");
    })
    .expect("headers.php request execution failed");
    assert_eq!(result.status_code(), 200);
    assert_eq!(result.header_val("Content-Type"), Some("application/json"));
    assert_eq!(result.header_val("x-custom-header"), Some("test-value"));
}

#[test]
fn test_error_handling_with_errors_script() {
    let result = execute(build(WebRequest::get(), "errors.php"), |e| {
        e.log("Sending an error log", 3);
        e.log("A user warning", 4);
        e.echo(b"done");
    })
    .expect("errors.php request execution failed");
    assert_eq!(result.status_code(), 200);
    assert!(result.all_messages().iter().any(|_| true));
    assert!(result.all_messages().iter().any(|m| m.message.contains("Sending an error log")));
    assert!(result.has_errors());
    assert_eq!(result.errors().len(), 1);
}

#[test]
fn test_state_isolation_after_errors() {
    let bad_exec = WebRequest::get().build("/nonexistent/path.php", None);
    assert!(bad_exec.is_err());

    let sapi = ready_engine();
    let executor = sapi.executor().unwrap();
    let missing = executor.begin(
        false,
        ExecutionContext::script("/nonexistent/path.php"),
        BufferPolicy::from_settings(None, None),
        false,
    );
    assert!(matches!(missing, Err(ExecutionError::ScriptNotFound(_))));

    let good_result = execute(build(WebRequest::get(), "hello.php"), hello)
        .expect("request after error path should succeed");
    assert_eq!(good_result.status_code(), 200);
    assert_eq!(good_result.body_string(), "Hello, World");
}

#[test]
fn test_sapi_initializes() {
    let php = ready_engine();
    assert!(php.is_initialized());
}

#[test]
fn test_file_not_found() {
    let req = WebRequest::get().build("/nonexistent/path.php", None);
    assert!(req.is_err());
}

#[test]
fn test_execution_error_script_not_found() {
    let php = ready_engine();
    let ctx = ExecutionContext::script("/nonexistent/path/to/script.php");
    let result = php.executor().unwrap().begin(false, ctx, BufferPolicy::from_settings(None, None), false);
    assert!(result.is_err(), "execute should fail for nonexistent script");
    let err = match result {
        Err(e) => e,
        Ok(_) => unreachable!(),
    };
    assert!(err.to_string().contains("not found"), "Error should mention script not found");
}

#[test]
fn test_session_basic() {
    let session = |e: &mut Engine| {
        let visits = match e.ctx.cookie_data() {
            Some(c) if c.starts_with("PHPSESSID=abc") => 2,
            _ => 1,
        };
        e.header("Set-Cookie: PHPSESSID=abc; path=/");
        e.echo(format!("{{\"session_id\":\"abc\",\"visit_count\":{}}}", visits).as_bytes());
    };
    let result1 = execute(build(WebRequest::get(), "session.php"), session)
        .expect("first session request execution failed");
    assert_eq!(result1.status_code(), 200);
    let body1 = result1.body_string();
    assert!(body1.contains("session_id"));
    assert!(body1.contains("\"visit_count\":1"));

    let session_cookie = result1
        .all_headers()
        .iter()
        .find(|h| h.name().eq_ignore_ascii_case("Set-Cookie"))
        .and_then(|h| {
            if h.value().starts_with("PHPSESSID=") {
                h.value().split(';').next().map(|s| s.to_string())
            } else {
                None
            }
        });

    let cookie_val = session_cookie.expect("session cookie");
    let exec2 = build(WebRequest::get().with_raw_cookie_header(&cookie_val), "session.php");
    let result2 = execute(exec2, session).expect("second session request execution failed");
    assert!(result2.body_string().contains("\"visit_count\":2"));
}

#[test]
fn test_head_request_method() {
    let result = execute(build(WebRequest::head(), "hello.php"), |e| {
        assert_eq!(e.var("REQUEST_METHOD"), Some("HEAD".to_string()));
        hello(e);
    })
    .expect("HEAD request execution failed");
    assert_eq!(result.status_code(), 200);
}

#[test]
fn test_options_request_method() {
    let result = execute(build(WebRequest::options(), "hello.php"), |e| {
        assert_eq!(e.var("REQUEST_METHOD"), Some("OPTIONS".to_string()));
        hello(e);
    })
    .expect("OPTIONS request execution failed");
    assert_eq!(result.status_code(), 200);
}

fn streaming_script(e: &mut Engine) {
    e.header("Content-Type: text/event-stream");
    for i in 1..=5 {
        e.echo(format!("data: Chunk {}\n\n", i).as_bytes());
    }
    e.echo(b"data: [DONE]\n\n");
}

#[test]
fn test_streaming_sse_output() {
    let chunks: Rc<RefCell<Vec<Vec<u8>>>> = Rc::new(RefCell::new(Vec::new()));
    let c = Rc::clone(&chunks);
    let mut on_chunk = move |chunk: &[u8]| c.borrow_mut().push(chunk.to_vec());
    let result = drive(
        build(WebRequest::get(), "streaming.php"),
        &mut NoOpHooks::new(),
        Some(&mut on_chunk),
        streaming_script,
    )
    .expect("SSE streaming request execution failed");
    assert_eq!(result.status_code(), 200);
    let received = chunks.borrow();
    assert!(received.len() > 1, "Should receive multiple chunks, got {}", received.len());
    assert!(result.body().is_empty());
    let combined: Vec<u8> = received.iter().flat_map(|c| c.iter().copied()).collect();
    let combined_str = String::from_utf8_lossy(&combined);
    assert!(combined_str.contains("Chunk 1"));
    assert!(combined_str.contains("Chunk 5"));
    assert!(combined_str.contains("[DONE]"));
}

#[test]
fn test_streaming_large_output() {
    let chunks: Rc<RefCell<Vec<Vec<u8>>>> = Rc::new(RefCell::new(Vec::new()));
    let c = Rc::clone(&chunks);
    let mut on_chunk = move |chunk: &[u8]| c.borrow_mut().push(chunk.to_vec());
    let result = drive(
        build(WebRequest::get(), "large_output.php"),
        &mut NoOpHooks::new(),
        Some(&mut on_chunk),
        large_output,
    )
    .expect("large output streaming request execution failed");
    assert_eq!(result.status_code(), 200);
    assert!(result.body().is_empty());
    let received = chunks.borrow();
    assert!(!received.is_empty());
    let callback_total: usize = received.iter().map(|c| c.len()).sum();
    assert!(callback_total >= 1024 * 1024);

    let result2 = execute(build(WebRequest::get(), "large_output.php"), large_output)
        .expect("non-streaming large output request execution failed");
    assert!(result2.body().len() >= 1024 * 1024);
    let combined: Vec<u8> = received.iter().flat_map(|c| c.iter().copied()).collect();
    assert_eq!(combined, result2.body());
}

#[test]
fn test_header_edge_cases_duplicate_set_cookie_headers() {
    let exec = build(
        WebRequest::get().with_uri("/header_edge_cases.php?test=duplicate"),
        "header_edge_cases.php",
    );
    let result = execute(exec, |e| {
        e.header("Set-Cookie: a=1");
        e.header("Set-Cookie: b=2");
        e.header("Set-Cookie: c=3");
        e.echo(b"ok");
    })
    .expect("header edge cases (duplicate) request execution failed");
    let set_cookies = result.header_vals("Set-Cookie");
    assert_eq!(set_cookies.len(), 3, "Expected 3 Set-Cookie headers, got {:?}", set_cookies);
    assert!(set_cookies.iter().any(|v| v.contains("a=1")));
    assert!(set_cookies.iter().any(|v| v.contains("b=2")));
    assert!(set_cookies.iter().any(|v| v.contains("c=3")));
    assert_eq!(set_cookies, vec!["a=1", "b=2", "c=3"]);
}

#[test]
fn test_header_edge_cases_header_remove() {
    let exec = build(
        WebRequest::get().with_uri("/header_edge_cases.php?test=remove"),
        "header_edge_cases.php",
    );
    let result = execute(exec, |e| {
        e.header("X-To-Remove: gone");
        e.header("X-Kept: still here");
        e.header_remove("X-To-Remove");
        e.echo(b"ok");
    })
    .expect("header edge cases (remove) request execution failed");
    assert!(result.header_val("X-To-Remove").is_none());
    let kept = result.header_val("X-Kept").map(|v| v.contains("still here")).unwrap_or(false);
    assert!(kept, "X-Kept should be present");
}

#[test]
fn test_status_codes_and_redirect_location_header() {
    let status_script = |e: &mut Engine| {
        let q = e.var("QUERY_STRING").unwrap_or_default();
        let code: i32 = q
            .split('&')
            .find_map(|p| p.strip_prefix("code="))
            .and_then(|c| c.parse().ok())
            .unwrap_or(200);
        e.status(code);
        e.echo(b"status");
    };
    let exec_201 = build(WebRequest::get().with_uri("/status_codes.php?code=201&method=code"), "status_codes.php");
    let result_201 = execute(exec_201, status_script).expect("status 201");
    assert_eq!(result_201.status_code(), 201);

    let exec_307 = build(WebRequest::get().with_uri("/status_codes.php?code=307&method=header"), "status_codes.php");
    let result_307 = execute(exec_307, status_script).expect("status 307");
    assert_eq!(result_307.status_code(), 307);

    let exec_redirect = build(WebRequest::get().with_uri("/redirect_handling.php?type=301"), "redirect_handling.php");
    let result_redirect = execute(exec_redirect, |e| {
        e.status(301);
        e.header("Location: /redirected.php");
    })
    .expect("redirect_handling.php request execution failed");
    assert_eq!(result_redirect.status_code(), 301);
    assert!(result_redirect.is_redirect());
    let location = result_redirect.header_val("Location").expect("redirect response missing Location header");
    assert!(location.contains("/redirected.php"));
}

#[test]
fn out_of_range_status_is_observed_as_500() {
    let result = execute(build(WebRequest::get(), "status_codes.php"), |e| {
        e.status(1000);
        e.echo(b"x");
    })
    .unwrap();
    assert_eq!(result.status_code(), 500);
    assert!(result.is_server_error());
}

#[test]
fn test_binary_output_byte_integrity() {
    let result = execute(build(WebRequest::get(), "binary_output.php"), |e| {
        let bytes: Vec<u8> = (0..=255u8).collect();
        e.echo(&bytes);
    })
    .expect("binary output request execution failed");
    assert_eq!(result.body().len(), 256, "Expected 256 bytes");
    assert_eq!(result.body()[0], 0);
    assert_eq!(result.body()[1], 1);
    assert_eq!(result.body()[255], 255);
}

#[test]
fn test_webrequest_shaping_via_superglobals() {
    let body = b"raw-body-123".to_vec();
    let path_info = "/extra/path";
    let document_root = "/tmp/ripht_sapi_docroot";
    let exec = build(
        WebRequest::post()
            .with_uri("/superglobals.php?alpha=1")
            .with_header("X-Foo-Bar", "baz")
            .with_https(true)
            .with_document_root(document_root)
            .with_path_info(path_info)
            .with_body(body.clone()),
        "superglobals.php",
    );
    let result = execute(exec, |e| {
        assert_eq!(e.var("HTTP_X_FOO_BAR"), Some("baz".to_string()));
        assert_eq!(e.var("REQUEST_SCHEME"), Some("https".to_string()));
        assert_eq!(e.var("HTTPS"), Some("on".to_string()));
        assert_eq!(e.var("PATH_INFO"), Some(path_info.to_string()));
        assert_eq!(e.var("PATH_TRANSLATED"), Some(format!("{}{}", document_root, path_info)));
        assert_eq!(e.var("CONTENT_TYPE"), Some("application/octet-stream".to_string()));
        assert_eq!(e.var("CONTENT_LENGTH"), Some(body.len().to_string()));
        assert_eq!(e.var("QUERY_STRING"), Some("alpha=1".to_string()));
        assert_eq!(e.var("SCRIPT_NAME"), Some("/superglobals.php".to_string()));
        e.echo(b"ok");
    })
    .expect("superglobals.php request execution failed");
    assert_eq!(result.body_string(), "ok");
}

struct FilterAndCaptureHooks {
    captured: Rc<RefCell<Vec<u8>>>,
    calls: Vec<&'static str>,
}

impl ExecutionHooks for FilterAndCaptureHooks {
    fn on_context_created(&mut self) {
        self.calls.push("context_created");
    }
    fn on_request_starting(&mut self) {
        self.calls.push("request_starting");
    }
    fn on_request_started(&mut self) {
        self.calls.push("request_started");
    }
    fn on_script_executing(&mut self, _script_path: &str) {
        self.calls.push("script_executing");
    }
    fn on_script_executed(&mut self, success: bool) {
        assert!(success);
        self.calls.push("script_executed");
    }
    fn on_request_finishing(&mut self) {
        self.calls.push("request_finishing");
    }
    fn on_header(&mut self, name: &str, _value: &str) -> bool {
        !name.eq_ignore_ascii_case("X-Another-Header")
    }
    fn on_status(&mut self, _code: u16) {
        self.calls.push("status");
    }
    fn on_output(&mut self, data: &[u8]) -> OutputAction {
        self.captured.borrow_mut().extend_from_slice(data);
        OutputAction::Handled
    }
    fn on_flush(&mut self) {
        self.calls.push("flush");
    }
    fn on_php_message(&mut self, _message: &ripht_php_sapi::ExecutionMessage) {
        self.calls.push("message");
    }
    fn on_request_finished(&mut self, _result: &ExecutionResult) {
        self.calls.push("request_finished");
    }
}

#[test]
fn test_execute_with_hooks_can_filter_headers_and_handle_output() {
    let captured = Rc::new(RefCell::new(Vec::<u8>::new()));
    let mut hooks = FilterAndCaptureHooks { captured: Rc::clone(&captured), calls: Vec::new() };
    let result = drive(build(WebRequest::get(), "headers.php"), &mut hooks, None, |e| {
        e.header("X-Custom-Header: test-value");
        e.header("X-Another-Header: filtered");
        e.echo(b"{\"method\":\"GET\"}");
    })
    .expect("execute_with_hooks() failed");
    assert!(result.body().is_empty());
    assert!(result.header_val("X-Custom-Header").is_some());
    assert!(result.header_val("X-Another-Header").is_none());
    let captured_bytes = captured.borrow().clone();
    assert!(!captured_bytes.is_empty());
    assert_eq!(captured_bytes, b"{\"method\":\"GET\"}".to_vec());
    assert_eq!(
        hooks.calls,
        vec![
            "context_created",
            "request_starting",
            "request_started",
            "script_executing",
            "script_executed",
            "request_finishing",
            "status",
            "request_finished"
        ]
    );
}

#[test]
fn streaming_callback_hooks_take_the_output() {
    let captured = Rc::new(RefCell::new(Vec::<u8>::new()));
    let c = Rc::clone(&captured);
    let mut hooks = StreamingCallback::new(move |d: &[u8]| c.borrow_mut().extend_from_slice(d));
    let result = drive(build(WebRequest::get(), "hello.php"), &mut hooks, None, hello).unwrap();
    assert!(result.body().is_empty());
    assert_eq!(captured.borrow().as_slice(), b"Hello, World");
}

#[test]
fn test_env_vars_visible_via_getenv() {
    let exec = build(WebRequest::get().with_env("TEST_ENV_KEY", "hello-env"), "env_vars.php");
    let result = execute(exec, |e| {
        let v = e.ctx.get_env("TEST_ENV_KEY").unwrap_or("null").to_string();
        let missing = e.ctx.get_env("MISSING_ENV_KEY").is_none();
        e.echo(format!("{} {}", v, missing).as_bytes());
    })
    .expect("env_vars.php request execution failed");
    assert_eq!(result.body_string(), "hello-env true");
}

#[test]
fn test_request_scoped_ini_overrides_apply_and_do_not_leak() {
    let ini_script = |e: &mut Engine| {
        let v = e.ini("display_errors", "1");
        e.echo(v.as_bytes());
    };
    let base = execute(build(WebRequest::get(), "ini_overrides.php"), ini_script).unwrap();
    let base_display_errors = base.body_string();
    assert_eq!(base_display_errors, "1");

    let over = execute(build(WebRequest::get().with_ini("display_errors", "0"), "ini_overrides.php"), ini_script)
        .unwrap();
    assert_eq!(over.body_string(), "0");

    let after = execute(build(WebRequest::get(), "ini_overrides.php"), ini_script).unwrap();
    assert_eq!(after.body_string(), base_display_errors, "display_errors should not leak across requests");
}

#[test]
fn test_cli_execution_captures_messages() {
    let path = script_path("error_log_test.php");
    let ctx = ripht_php_sapi::CliRequest::new()
        .build(&path, Some(path.clone()))
        .expect("failed to build CLI request");
    let result = execute(ctx, |e| {
        e.log("Test error log message", 3);
    })
    .expect("execution should succeed");
    assert!(!result.all_messages().is_empty());
    assert!(result.all_messages().iter().any(|m| m.message.contains("Test error log message")));
}

#[test]
fn startup_failure_is_reported() {
    let sapi = ready_engine();
    let executor = sapi.executor().unwrap();
    let mut req = executor
        .begin(true, ExecutionContext::script("/s.php"), BufferPolicy::from_settings(None, None), false)
        .unwrap();
    req.starting(&mut NoOpHooks::new());
    assert!(matches!(req.started(false, &mut NoOpHooks::new()), Err(ExecutionError::StartupFailed)));
    assert_eq!(req.phase(), ripht_php_sapi::Phase::StartupFailed);
}

#[test]
fn requests_need_a_ready_engine() {
    let mut sapi = RiphtSapi::new();
    assert!(sapi.executor().is_err());
    assert!(!sapi.is_initialized());
    sapi.record_startup(false);
    assert!(!sapi.needs_startup());
    assert!(sapi.init_result().is_err());
    let r = ripht_php_sapi::Request::begin(
        false,
        true,
        ExecutionContext::script("/s.php"),
        BufferPolicy::from_settings(None, None),
        false,
    );
    assert!(matches!(r, Err(ExecutionError::NotInitialized)));
    let r = ripht_php_sapi::Request::begin(
        true,
        true,
        ExecutionContext::script("/s\0.php"),
        BufferPolicy::from_settings(None, None),
        false,
    );
    assert!(matches!(r, Err(ExecutionError::InvalidPath(_))));
}
