use passepartout::event::{Event, EventPart, EventProperties, EventStatus, JsonValue, ToolState, ToolTime};
use passepartout::status::{elapsed_of, normalize_event, process_event};
use passepartout::stream::EventFrames;
use passepartout::tools::{
    format_tool_input_for_log, format_tool_input_for_status, get_tool_description, web_fetch_label, ToolKind,
};

fn status_event(session: &str, kind: &str, attempt: Option<u32>) -> Event {
    Event {
        event_type: "session.status".to_string(),
        properties: Some(EventProperties {
            session_id: Some(session.to_string()),
            status: Some(EventStatus { status_type: kind.to_string(), attempt }),
            part: None,
        }),
    }
}

fn object(members: &[(&str, &str)]) -> JsonValue {
    JsonValue::Object(
        members
            .iter()
            .map(|(k, v)| (k.to_string(), JsonValue::Str(v.to_string())))
            .collect(),
    )
}

fn tool_event(session: &str, tool: &str, status: &str, input: Option<JsonValue>, time: Option<ToolTime>) -> Event {
    Event {
        event_type: "message.part.updated".to_string(),
        properties: Some(EventProperties {
            session_id: None,
            status: None,
            part: Some(EventPart {
                part_type: "tool".to_string(),
                session_id: Some(session.to_string()),
                tool: Some(tool.to_string()),
                state: Some(ToolState {
                    status: Some(status.to_string()),
                    title: None,
                    input,
                    output: Some("done".to_string()),
                    error: None,
                    time,
                }),
            }),
        }),
    }
}

#[test]
fn busy_frame_gives_one_thinking_update() {
    let mut frames = EventFrames::new();
    let payloads = frames.push_text(
        "data: {\"type\":\"session.status\",\"properties\":{\"sessionID\":\"s1\",\"status\":{\"type\":\"busy\"}}}\n\n",
    );
    assert_eq!(
        payloads,
        vec!["{\"type\":\"session.status\",\"properties\":{\"sessionID\":\"s1\",\"status\":{\"type\":\"busy\"}}}".to_string()]
    );
    let updates: Vec<_> = vec![status_event("s1", "busy", None)]
        .into_iter()
        .filter_map(|e| normalize_event(e, "s1", 5))
        .collect();
    assert_eq!(updates.len(), 1);
    assert_eq!(updates[0].update_type, "busy");
    assert_eq!(updates[0].message.as_deref(), Some("Thinking..."));
    assert_eq!(updates[0].details.as_ref().unwrap().timestamp, 5);
}

#[test]
fn long_bash_command_is_shortened() {
    let command = "a very long shell command exceeding fifty characters in length";
    let input = object(&[("command", command)]);
    let u = normalize_event(tool_event("s1", "bash", "running", Some(input), None), "s1", 1).unwrap();
    let expected = format!("Running command: {}...", &command[..47]);
    assert_eq!(u.update_type, "tool");
    assert_eq!(u.message.as_deref(), Some(expected.as_str()));
    let d = u.details.unwrap();
    assert_eq!(d.full_message, Some(format!("Running command: {}", command)));
    assert_eq!(d.tool_name.as_deref(), Some("bash"));
    assert!(d.input.is_some());
}

#[test]
fn retry_and_idle_updates() {
    let u = normalize_event(status_event("s1", "retry", Some(3)), "s1", 0).unwrap();
    assert_eq!(u.message.as_deref(), Some("Retrying (attempt 3)..."));
    let u = normalize_event(status_event("s1", "retry", None), "s1", 0).unwrap();
    assert_eq!(u.message.as_deref(), Some("Retrying (attempt 1)..."));
    let u = normalize_event(status_event("s1", "idle", None), "s1", 0).unwrap();
    assert_eq!(u.update_type, "idle");
    assert_eq!(u.message, None);
    assert!(normalize_event(status_event("s1", "weird", None), "s1", 0).is_none());
}

#[test]
fn other_session_is_ignored() {
    assert!(normalize_event(status_event("s2", "busy", None), "s1", 0).is_none());
    let input = object(&[("command", "ls")]);
    assert!(normalize_event(tool_event("s2", "bash", "running", Some(input), None), "s1", 0).is_none());
    let idle = Event {
        event_type: "session.idle".to_string(),
        properties: Some(EventProperties { session_id: Some("s2".to_string()), status: None, part: None }),
    };
    assert!(normalize_event(idle, "s1", 0).is_none());
}

#[test]
fn completed_tool_reports_duration() {
    let time = ToolTime { start: Some(100), end: Some(350) };
    let u = normalize_event(tool_event("s1", "read", "completed", None, Some(time)), "s1", 0).unwrap();
    assert_eq!(u.update_type, "tool-completed");
    assert_eq!(u.message.as_deref(), Some("Reading file completed"));
    let d = u.details.unwrap();
    assert_eq!(d.duration, Some(250));
    assert_eq!(d.output.as_deref(), Some("done"));
}

#[test]
fn missing_times_give_no_duration() {
    let time = ToolTime { start: Some(100), end: None };
    let u = normalize_event(tool_event("s1", "read", "completed", None, Some(time)), "s1", 0).unwrap();
    assert_eq!(u.details.unwrap().duration, None);
    let u = normalize_event(tool_event("s1", "read", "error", None, None), "s1", 0).unwrap();
    assert_eq!(u.details.unwrap().duration, None);
    assert_eq!(elapsed_of(Some(ToolTime { start: None, end: Some(4) })), None);
    assert_eq!(elapsed_of(Some(ToolTime { start: Some(9), end: Some(4) })), None);
}

#[test]
fn tool_error_message() {
    let u = normalize_event(tool_event("s1", "grep", "error", None, None), "s1", 0).unwrap();
    assert_eq!(u.update_type, "tool-error");
    assert_eq!(u.message.as_deref(), Some("Error: Unknown error"));
}

#[test]
fn reasoning_and_text_parts() {
    let part = |kind: &str| Event {
        event_type: "message.part.updated".to_string(),
        properties: Some(EventProperties {
            session_id: None,
            status: None,
            part: Some(EventPart { part_type: kind.to_string(), session_id: Some("s1".to_string()), tool: None, state: None }),
        }),
    };
    let u = normalize_event(part("reasoning"), "s1", 0).unwrap();
    assert_eq!((u.update_type.as_str(), u.message.as_deref()), ("reasoning", Some("Reasoning...")));
    let u = normalize_event(part("text"), "s1", 0).unwrap();
    assert_eq!((u.update_type.as_str(), u.message.as_deref()), ("generating", Some("Generating response...")));
}

#[test]
fn process_event_stamps_current_time() {
    let u = process_event(status_event("s1", "busy", None), "s1").unwrap();
    assert!(u.details.unwrap().timestamp > 1_600_000_000_000);
}

#[test]
fn tool_descriptions() {
    assert_eq!(get_tool_description("Bash", None), "Running command");
    assert_eq!(get_tool_description("web_fetch", None), "Fetching webpage");
    assert_eq!(get_tool_description("list_directory", None), "Listing directory");
    assert_eq!(get_tool_description("todo", None), "Running todo");
    assert_eq!(get_tool_description("bash", Some("Custom")), "Custom");
    assert_eq!(ToolKind::of_lowercase("GREP"), ToolKind::Other);
    assert_eq!(ToolKind::of_name("GREP"), ToolKind::Grep);
}

#[test]
fn input_summaries() {
    let input = Some(object(&[("path", "/src/lib.rs")]));
    assert_eq!(format_tool_input_for_status("edit", &input), "lib.rs");
    assert_eq!(format_tool_input_for_log("edit", &input), "/src/lib.rs");
    let input = Some(object(&[("pattern", "fn main")]));
    assert_eq!(format_tool_input_for_status("grep", &input), "\"fn main\"");
    assert_eq!(format_tool_input_for_status("glob", &input), "fn main");
    let input = Some(object(&[("query", "verus")]));
    assert_eq!(format_tool_input_for_status("web_search", &input), "\"verus\"");
    assert_eq!(format_tool_input_for_status("unknown", &input), "");
    assert_eq!(format_tool_input_for_status("bash", &None), "");
}

#[test]
fn first_present_path_member_wins() {
    let input = Some(JsonValue::Object(vec![
        ("file_path".to_string(), JsonValue::Number("3".to_string())),
        ("path".to_string(), JsonValue::Str("/a/b".to_string())),
    ]));
    assert_eq!(format_tool_input_for_status("read", &input), "");
    let input = Some(object(&[("filename", "c/d.txt")]));
    assert_eq!(format_tool_input_for_status("write", &input), "d.txt");
}

#[test]
fn fetched_address_shows_its_host() {
    let input = Some(object(&[("url", "https://docs.example.com/page?q=1")]));
    assert_eq!(format_tool_input_for_status("web_fetch", &input), "docs.example.com");
    assert_eq!(format_tool_input_for_log("web_fetch", &input), "https://docs.example.com/page?q=1");
    let input = Some(object(&[("url", "not a url at all, just some words that run on and on")]));
    assert_eq!(
        format_tool_input_for_status("web_fetch", &input),
        "not a url at all, just some words tha..."
    );
    let input = Some(object(&[("url", "data:text/plain,Stuff")]));
    assert_eq!(format_tool_input_for_status("web_fetch", &input), "data:text/plain,Stuff");
}

#[test]
fn fetch_label_from_parse_result() {
    assert_eq!(web_fetch_label("u", Some(Some("h".to_string()))), "h");
    assert_eq!(web_fetch_label("u", Some(None)), "u");
    assert_eq!(web_fetch_label("u", None), "u");
}
