use passepartout::event::{Event, EventProperties, EventStatus};
use passepartout::exchange::{
    body_snippet, collect_answer, response_outcome, session_outcome, AgentError, Exchange, HealthCheck,
    HealthStep, MessageRun, ResponsePart, RunState, MAX_HEALTH_CHECKS,
};

fn text_part(t: &str) -> ResponsePart {
    ResponsePart { part_type: "text".to_string(), text: Some(t.to_string()) }
}

fn busy(session: &str) -> Event {
    Event {
        event_type: "session.status".to_string(),
        properties: Some(EventProperties {
            session_id: Some(session.to_string()),
            status: Some(EventStatus { status_type: "busy".to_string(), attempt: None }),
            part: None,
        }),
    }
}

#[test]
fn two_text_parts_are_joined() {
    let parts = vec![text_part("Hello"), text_part("World")];
    assert_eq!(collect_answer(Some(parts)), "Hello\nWorld");
}

#[test]
fn no_text_parts_gives_placeholder() {
    let parts = vec![ResponsePart { part_type: "tool".to_string(), text: Some("x".to_string()) }];
    assert_eq!(collect_answer(Some(parts)), "No response received.");
    assert_eq!(collect_answer(Some(vec![])), "No response received.");
    assert_eq!(collect_answer(None), "No response received.");
    let parts = vec![ResponsePart { part_type: "text".to_string(), text: None }, text_part("only")];
    assert_eq!(collect_answer(Some(parts)), "only");
}

#[test]
fn successful_response_gives_answer() {
    let r = response_outcome(200, "{}", Ok(Some(vec![text_part("Hello"), text_part("World")])));
    assert_eq!(r.unwrap(), "Hello\nWorld");
    let r = response_outcome(204, "{}", Ok(Some(vec![])));
    assert_eq!(r.unwrap(), "No response received.");
}

#[test]
fn failed_status_is_a_protocol_error() {
    let r = response_outcome(500, "boom", Ok(None));
    match r {
        Err(AgentError::ProtocolError { exchange, status, body }) => {
            assert_eq!(exchange, Exchange::SendMessage);
            assert_eq!(status, 500);
            assert_eq!(body, "boom");
        }
        other => panic!("unexpected {:?}", other),
    }
    let e = response_outcome(404, "missing", Err("bad".to_string())).unwrap_err();
    assert_eq!(e.message(), "API error (404): missing");
}

#[test]
fn unparsable_body_is_a_parse_error_with_snippet() {
    let body = "x".repeat(250);
    let e = response_outcome(200, &body, Err("expected value".to_string())).unwrap_err();
    assert_eq!(e.message(), format!("Failed to parse response: expected value. Body: {}", "x".repeat(200)));
    assert_eq!(body_snippet("short"), "short");
}

#[test]
fn session_creation_outcomes() {
    assert_eq!(session_outcome(200, "{\"id\":\"s1\"}", Ok("s1".to_string())).unwrap(), "s1");
    let e = session_outcome(401, "denied", Ok("s1".to_string())).unwrap_err();
    assert_eq!(e.message(), "Failed to create session (401): denied");
    let e = session_outcome(200, "oops", Err("eof".to_string())).unwrap_err();
    assert_eq!(e.message(), "Failed to parse session response: eof. Body: oops");
}

#[test]
fn error_messages() {
    assert_eq!(AgentError::NotInitialized.message(), "OpenCode SDK not initialized. Please restart the app.");
    assert_eq!(
        AgentError::SpawnFailed { reason: "no such file".to_string() }.message(),
        "Failed to start OpenCode server: no such file"
    );
    assert_eq!(AgentError::RequestFailed { reason: "Failed to send message: x".to_string() }.message(), "Failed to send message: x");
}

#[test]
fn startup_times_out_after_sixty_failed_checks() {
    let mut check = HealthCheck::new();
    for _ in 0..59 {
        assert_eq!(check.record(false), HealthStep::Wait { delay_ms: 500 });
    }
    assert_eq!(check.record(false), HealthStep::TimedOut);
    let e = check.timeout_error();
    assert_eq!(e.message(), "OpenCode server failed to start after 60 retries");
    assert_eq!(MAX_HEALTH_CHECKS, 60);
}

#[test]
fn healthy_check_is_ready() {
    let mut check = HealthCheck::new();
    assert_eq!(check.record(false), HealthStep::Wait { delay_ms: 500 });
    assert_eq!(check.record(true), HealthStep::Ready);
}

#[test]
fn no_updates_after_the_run_finished() {
    let mut run = MessageRun::start("s1");
    assert!(run.deliver(busy("s1"), 1).is_some());
    assert!(run.relay(busy("s1")).is_some());
    let out = run.finish(Ok("answer".to_string()));
    assert_eq!(out.unwrap(), "answer");
    assert_eq!(run.current_state(), RunState::Answered);
    assert!(run.deliver(busy("s1"), 2).is_none());
    assert!(run.relay(busy("s1")).is_none());

    let mut failed = MessageRun::start("s1");
    let _ = failed.finish(Err(AgentError::NotInitialized));
    assert_eq!(failed.current_state(), RunState::Failed);
    assert!(failed.deliver(busy("s1"), 3).is_none());
}
