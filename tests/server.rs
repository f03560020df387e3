use passepartout::browser::{combine_output, BrowserCheckResult};
use passepartout::server::{server_url, ServerAuth, PASSWORD_LENGTH, SERVER_USERNAME};

#[test]
fn server_address() {
    assert_eq!(server_url(4096), "http://127.0.0.1:4096");
}

#[test]
fn generated_credentials() {
    let a = ServerAuth::generate();
    assert_eq!(a.username(), SERVER_USERNAME);
    assert_eq!(a.password().len(), PASSWORD_LENGTH);
    assert!(a.password().chars().all(|c| c.is_ascii_alphanumeric()));
    assert!(a.auth_header().starts_with("Basic "));
}

#[test]
fn basic_auth_header_is_base64() {
    let a = ServerAuth::from_parts("user", "pass").unwrap();
    assert_eq!(a.auth_header(), "Basic dXNlcjpwYXNz");
    assert!(ServerAuth::from_parts("usér", "pass").is_none());
    assert!(ServerAuth::from_parts("u", &"p".repeat(2000)).is_none());
}

#[test]
fn browser_outputs_are_combined() {
    assert_eq!(combine_output("out", ""), "out");
    assert_eq!(combine_output("", "err"), "err");
    assert_eq!(combine_output("out", "err"), "out\nerr");
    let r = BrowserCheckResult::from_run(true, b"ok", b"warn");
    assert!(r.success);
    assert_eq!(r.output, "ok\nwarn");
    let r = BrowserCheckResult::not_run("missing");
    assert!(!r.success);
    assert_eq!(r.output, "Failed to run latchkey: missing");
}
