use ripht_php_sapi::{CliRequest, CliRequestError, ExecutionContext};

const SCRIPT: &str = "/srv/scripts/hello.php";

fn build(req: CliRequest) -> ExecutionContext {
    req.build(SCRIPT, Some(SCRIPT.to_string())).expect("failed to build CLI request")
}

fn var(ctx: &ExecutionContext, key: &str) -> Option<String> {
    ctx.server_vars.iter().iter().rev().find(|(k, _)| k == key).map(|(_, v)| v.clone())
}

#[test]
fn test_cli_request_sets_log_to_stderr() {
    let ctx = build(CliRequest::new());
    assert!(ctx.log_to_stderr, "CLI request should set log_to_stderr to true");
}

#[test]
fn cli_request_shapes_arguments() {
    let ctx = build(
        CliRequest::new()
            .with_arg("--test")
            .with_args(vec!["a".to_string(), "b c".to_string()])
            .with_working_dir("/work")
            .with_stdin(b"in".to_vec())
            .with_env("K", "V")
            .with_ini("memory_limit", "64M"),
    );
    assert_eq!(ctx.script_path, SCRIPT);
    assert_eq!(var(&ctx, "argc"), Some("4".to_string()));
    assert_eq!(var(&ctx, "argv"), Some("hello.php --test a b c".to_string()));
    assert_eq!(var(&ctx, "SCRIPT_NAME"), Some("hello.php".to_string()));
    assert_eq!(var(&ctx, "PHP_SELF"), Some("hello.php".to_string()));
    assert_eq!(var(&ctx, "SCRIPT_FILENAME"), Some(SCRIPT.to_string()));
    assert_eq!(var(&ctx, "PATH_TRANSLATED"), Some(SCRIPT.to_string()));
    assert_eq!(var(&ctx, "PWD"), Some("/work".to_string()));
    assert_eq!(var(&ctx, "DOCUMENT_ROOT"), Some("".to_string()));
    assert_eq!(ctx.input, b"in".to_vec());
    assert_eq!(ctx.env_vars, vec![("K".to_string(), "V".to_string())]);
    assert_eq!(ctx.ini_overrides.len(), 7);
    assert_eq!(ctx.ini_overrides[0], ("html_errors".to_string(), "0".to_string()));
    assert_eq!(ctx.ini_overrides[6], ("memory_limit".to_string(), "64M".to_string()));
}

#[test]
fn cli_request_without_script_is_refused() {
    match CliRequest::new().build("/missing.php", None) {
        Err(CliRequestError::ScriptNotFound(p)) => assert_eq!(p, "/missing.php"),
        Ok(_) => panic!("Expected ScriptNotFound"),
    }
    let e = CliRequestError::ScriptNotFound("/test.php".to_string());
    assert_eq!(e.to_string(), "Script not found: /test.php");
}

#[test]
fn cli_request_at_a_fixed_time() {
    let ctx = CliRequest::new().build_at(SCRIPT, Some(SCRIPT.to_string()), 12, 5).unwrap();
    let v = ctx.server_vars.into_vec();
    assert_eq!(v[0], ("REQUEST_TIME".to_string(), "12".to_string()));
    assert_eq!(v[1], ("REQUEST_TIME_FLOAT".to_string(), "12.000005".to_string()));
    assert_eq!(v[2], ("DOCUMENT_ROOT".to_string(), "".to_string()));
    assert_eq!(v[3], ("SCRIPT_FILENAME".to_string(), SCRIPT.to_string()));
    assert_eq!(v.len(), 9);
}
