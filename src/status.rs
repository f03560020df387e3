//! Normalization of raw progress events into the status updates a UI shows.

use crate::event::{Event, EventProperties, JsonValue, ToolState, ToolTime};
use crate::text::{decimal, lower_of, same_text, to_decimal};
use crate::tools::{
    format_tool_input_for_log, format_tool_input_for_status, get_tool_description, log_summary,
    opt_text, status_summary, tool_description, tool_kind,
};
use vstd::prelude::*;
use vstd::string::*;

verus! {

/// Details that come with a status update. `timestamp` is the time of
/// normalization in milliseconds, not a time carried by the event.
#[derive(Debug)]
pub struct StatusUpdateDetails {
    pub full_message: Option<String>,
    pub tool_name: Option<String>,
    pub timestamp: u64,
    pub input: Option<JsonValue>,
    pub output: Option<String>,
    pub error: Option<String>,
    pub duration: Option<u64>,
}

/// One update for the UI: its kind (`busy`, `idle`, `retry`, `tool`,
/// `tool-completed`, `tool-error`, `reasoning` or `generating`), a one-line
/// message and details.
#[derive(Debug)]
pub struct StatusUpdate {
    pub update_type: String,
    pub message: Option<String>,
    pub details: Option<StatusUpdateDetails>,
}

/// The details of a status update, with texts as character sequences.
pub struct DetailsModel {
    pub full_message: Option<Seq<char>>,
    pub tool_name: Option<Seq<char>>,
    pub timestamp: u64,
    pub input: Option<JsonValue>,
    pub output: Option<Seq<char>>,
    pub error: Option<Seq<char>>,
    pub duration: Option<u64>,
}

/// A status update, with texts as character sequences.
pub struct StatusModel {
    pub kind: Seq<char>,
    pub message: Option<Seq<char>>,
    pub details: Option<DetailsModel>,
}

impl View for StatusUpdateDetails {
    type V = DetailsModel;

    open spec fn view(&self) -> DetailsModel {
        DetailsModel {
            full_message: opt_text(self.full_message),
            tool_name: opt_text(self.tool_name),
            timestamp: self.timestamp,
            input: self.input,
            output: opt_text(self.output),
            error: opt_text(self.error),
            duration: self.duration,
        }
    }
}

impl View for StatusUpdate {
    type V = StatusModel;

    open spec fn view(&self) -> StatusModel {
        StatusModel {
            kind: self.update_type@,
            message: opt_text(self.message),
            details: match self.details {
                Some(d) => Some(d@),
                None => None,
            },
        }
    }
}

/// The model of an update, if there is one.
pub open spec fn opt_model(u: Option<StatusUpdate>) -> Option<StatusModel> {
    match u {
        Some(x) => Some(x@),
        None => None,
    }
}

/// An update whose details carry nothing but the time.
pub open spec fn plain_update(kind: Seq<char>, message: Option<Seq<char>>, now: u64) -> StatusModel {
    StatusModel {
        kind,
        message,
        details: Some(
            DetailsModel {
                full_message: None,
                tool_name: None,
                timestamp: now,
                input: None,
                output: None,
                error: None,
                duration: None,
            },
        ),
    }
}

/// How long a tool ran: known only when both ends are, and the end does
/// not come before the start.
pub open spec fn elapsed(time: Option<ToolTime>) -> Option<u64> {
    match time {
        Some(t) => match (t.start, t.end) {
            (Some(s), Some(e)) => if s <= e {
                Some((e - s) as u64)
            } else {
                None
            },
            _ => None,
        },
        None => None,
    }
}

/// The event belongs to session `sid`.
pub open spec fn session_matches(id: Option<String>, sid: Seq<char>) -> bool {
    id matches Some(s) && s@ == sid
}

/// The message of a retry: the attempt, counting from 1 when not given.
pub open spec fn retry_message(attempt: Option<u32>) -> Seq<char> {
    let n: u32 = match attempt {
        Some(a) => a,
        None => 1,
    };
    "Retrying (attempt "@ + decimal(n as nat) + ")..."@
}

/// A label, followed by a summary when there is one.
pub open spec fn labelled(label: Seq<char>, summary: Seq<char>) -> Seq<char> {
    if summary.len() == 0 {
        label
    } else {
        label + ": "@ + summary
    }
}

/// The update for a session whose state changed.
pub open spec fn status_changed(props: EventProperties, sid: Seq<char>, now: u64) -> Option<StatusModel> {
    if !session_matches(props.session_id, sid) {
        None
    } else {
        match props.status {
            None => None,
            Some(st) => if st.status_type@ == "busy"@ {
                Some(plain_update("busy"@, Some("Thinking..."@), now))
            } else if st.status_type@ == "idle"@ {
                Some(plain_update("idle"@, None, now))
            } else if st.status_type@ == "retry"@ {
                Some(plain_update("retry"@, Some(retry_message(st.attempt)), now))
            } else {
                None
            },
        }
    }
}

/// The update for a tool part of tool `tool` in state `state`.
pub open spec fn tool_update(tool: Seq<char>, state: ToolState, now: u64) -> Option<StatusModel> {
    match state.status {
        None => None,
        Some(st) => {
            let label = tool_description(tool, opt_text(state.title));
            let kind = tool_kind(lower_of(tool));
            if st@ == "running"@ {
                Some(
                    StatusModel {
                        kind: "tool"@,
                        message: Some(labelled(label, status_summary(kind, state.input))),
                        details: Some(
                            DetailsModel {
                                full_message: Some(labelled(label, log_summary(kind, state.input))),
                                tool_name: Some(tool),
                                timestamp: now,
                                input: state.input,
                                output: None,
                                error: None,
                                duration: None,
                            },
                        ),
                    },
                )
            } else if st@ == "completed"@ {
                Some(
                    StatusModel {
                        kind: "tool-completed"@,
                        message: Some(label + " completed"@),
                        details: Some(
                            DetailsModel {
                                full_message: None,
                                tool_name: Some(tool),
                                timestamp: now,
                                input: None,
                                output: opt_text(state.output),
                                error: None,
                                duration: elapsed(state.time),
                            },
                        ),
                    },
                )
            } else if st@ == "error"@ {
                Some(
                    StatusModel {
                        kind: "tool-error"@,
                        message: Some(
                            "Error: "@ + match opt_text(state.error) {
                                Some(e) => e,
                                None => "Unknown error"@,
                            },
                        ),
                        details: Some(
                            DetailsModel {
                                full_message: None,
                                tool_name: Some(tool),
                                timestamp: now,
                                input: None,
                                output: None,
                                error: opt_text(state.error),
                                duration: elapsed(state.time),
                            },
                        ),
                    },
                )
            } else {
                None
            }
        },
    }
}

/// The update for a response part that was created or changed.
pub open spec fn part_updated(props: EventProperties, sid: Seq<char>, now: u64) -> Option<StatusModel> {
    match props.part {
        None => None,
        Some(part) => if !session_matches(part.session_id, sid) {
            None
        } else if part.part_type@ == "tool"@ {
            match (part.tool, part.state) {
                (Some(t), Some(s)) => tool_update(t@, s, now),
                _ => None,
            }
        } else if part.part_type@ == "reasoning"@ {
            Some(plain_update("reasoning"@, Some("Reasoning..."@), now))
        } else if part.part_type@ == "text"@ {
            Some(plain_update("generating"@, Some("Generating response..."@), now))
        } else {
            None
        },
    }
}

/// The status update that event `e` of the stream gives for session `sid`
/// at time `now`, if any.
pub open spec fn normalized(e: Event, sid: Seq<char>, now: u64) -> Option<StatusModel> {
    match e.properties {
        None => None,
        Some(props) => if e.event_type@ == "session.status"@ {
            status_changed(props, sid, now)
        } else if e.event_type@ == "message.part.updated"@ {
            part_updated(props, sid, now)
        } else if e.event_type@ == "session.idle"@ {
            if session_matches(props.session_id, sid) {
                Some(plain_update("idle"@, None, now))
            } else {
                None
            }
        } else {
            None
        },
    }
}

/// Relies on `std::time::SystemTime::now`: a reading of the clock, in
/// milliseconds since the Unix epoch.
#[verifier::external_body]
pub(crate) fn now_millis() -> u64 {
    std::time::SystemTime::now()
        .duration_since(std::time::UNIX_EPOCH)
        .map(|d| d.as_millis() as u64)
        .unwrap_or(0)
}

fn plain(kind: &str, message: Option<String>, now: u64) -> (r: StatusUpdate)
    ensures
        r@ == plain_update(kind@, opt_text(message), now),
{
    StatusUpdate {
        update_type: kind.to_owned(),
        message,
        details: Some(
            StatusUpdateDetails {
                full_message: None,
                tool_name: None,
                timestamp: now,
                input: None,
                output: None,
                error: None,
                duration: None,
            },
        ),
    }
}

fn session_is(id: &Option<String>, session_id: &str) -> (r: bool)
    ensures
        r == session_matches(*id, session_id@),
{
    match id {
        Some(s) => same_text(s.as_str(), session_id),
        None => false,
    }
}

/// How long a tool ran, when its start and end are both known.
pub fn elapsed_of(time: Option<ToolTime>) -> (r: Option<u64>)
    ensures
        r == elapsed(time),
{
    match time {
        Some(t) => match (t.start, t.end) {
            (Some(s), Some(e)) => if s <= e {
                Some(e - s)
            } else {
                None
            },
            _ => None,
        },
        None => None,
    }
}

fn labelled_text(label: &String, summary: String) -> (r: String)
    ensures
        r@ == labelled(label@, summary@),
{
    if summary.unicode_len() == 0 {
        label.clone()
    } else {
        label.clone().concat(": ").concat(summary.as_str())
    }
}

fn normalize_status(props: EventProperties, session_id: &str, now: u64) -> (r: Option<StatusUpdate>)
    ensures
        opt_model(r) == status_changed(props, session_id@, now),
{
    if !session_is(&props.session_id, session_id) {
        return None;
    }
    match props.status {
        None => None,
        Some(st) => if same_text(st.status_type.as_str(), "busy") {
            Some(plain("busy", Some(String::from_str("Thinking...")), now))
        } else if same_text(st.status_type.as_str(), "idle") {
            Some(plain("idle", None, now))
        } else if same_text(st.status_type.as_str(), "retry") {
            let n: u32 = match st.attempt {
                Some(a) => a,
                None => 1,
            };
            let message = String::from_str("Retrying (attempt ").concat(
                to_decimal(n as u64).as_str(),
            ).concat(")...");
            Some(plain("retry", Some(message), now))
        } else {
            None
        },
    }
}

fn normalize_tool(tool: String, state: ToolState, now: u64) -> (r: Option<StatusUpdate>)
    ensures
        opt_model(r) == tool_update(tool@, state, now),
{
    let status = match &state.status {
        Some(st) => st,
        None => {
            return None;
        },
    };
    let title = match &state.title {
        Some(t) => Some(t.as_str()),
        None => None,
    };
    let label = get_tool_description(tool.as_str(), title);
    if same_text(status.as_str(), "running") {
        let short = format_tool_input_for_status(tool.as_str(), &state.input);
        let full = format_tool_input_for_log(tool.as_str(), &state.input);
        let message = labelled_text(&label, short);
        let full_message = labelled_text(&label, full);
        Some(
            StatusUpdate {
                update_type: String::from_str("tool"),
                message: Some(message),
                details: Some(
                    StatusUpdateDetails {
                        full_message: Some(full_message),
                        tool_name: Some(tool),
                        timestamp: now,
                        input: state.input,
                        output: None,
                        error: None,
                        duration: None,
                    },
                ),
            },
        )
    } else if same_text(status.as_str(), "completed") {
        Some(
            StatusUpdate {
                update_type: String::from_str("tool-completed"),
                message: Some(label.concat(" completed")),
                details: Some(
                    StatusUpdateDetails {
                        full_message: None,
                        tool_name: Some(tool),
                        timestamp: now,
                        input: None,
                        output: state.output,
                        error: None,
                        duration: elapsed_of(state.time),
                    },
                ),
            },
        )
    } else if same_text(status.as_str(), "error") {
        let reason = match &state.error {
            Some(e) => e.as_str(),
            None => "Unknown error",
        };
        let message = String::from_str("Error: ").concat(reason);
        Some(
            StatusUpdate {
                update_type: String::from_str("tool-error"),
                message: Some(message),
                details: Some(
                    StatusUpdateDetails {
                        full_message: None,
                        tool_name: Some(tool),
                        timestamp: now,
                        input: None,
                        output: None,
                        error: state.error,
                        duration: elapsed_of(state.time),
                    },
                ),
            },
        )
    } else {
        None
    }
}

fn normalize_part(props: EventProperties, session_id: &str, now: u64) -> (r: Option<StatusUpdate>)
    ensures
        opt_model(r) == part_updated(props, session_id@, now),
{
    let part = match props.part {
        Some(p) => p,
        None => {
            return None;
        },
    };
    if !session_is(&part.session_id, session_id) {
        None
    } else if same_text(part.part_type.as_str(), "tool") {
        match (part.tool, part.state) {
            (Some(t), Some(s)) => normalize_tool(t, s, now),
            _ => None,
        }
    } else if same_text(part.part_type.as_str(), "reasoning") {
        Some(plain("reasoning", Some(String::from_str("Reasoning...")), now))
    } else if same_text(part.part_type.as_str(), "text") {
        Some(plain("generating", Some(String::from_str("Generating response...")), now))
    } else {
        None
    }
}

/// The status update that `event` gives for session `session_id`, stamped
/// with time `now`. Events of other sessions give none.
pub fn normalize_event(event: Event, session_id: &str, now: u64) -> (r: Option<StatusUpdate>)
    ensures
        opt_model(r) == normalized(event, session_id@, now),
{
    let props = match event.properties {
        Some(p) => p,
        None => {
            return None;
        },
    };
    if same_text(event.event_type.as_str(), "session.status") {
        normalize_status(props, session_id, now)
    } else if same_text(event.event_type.as_str(), "message.part.updated") {
        normalize_part(props, session_id, now)
    } else if same_text(event.event_type.as_str(), "session.idle") {
        if session_is(&props.session_id, session_id) {
            Some(plain("idle", None, now))
        } else {
            None
        }
    } else {
        None
    }
}

/// The status update that `event` gives for session `session_id`, stamped
/// with the current time.
pub fn process_event(event: Event, session_id: &str) -> (r: Option<StatusUpdate>)
    ensures
        exists|t: u64| opt_model(r) == normalized(event, session_id@, t),
{
    let ghost e = event;
    let now = now_millis();
    let r = normalize_event(event, session_id, now);
    assert(opt_model(r) == normalized(e, session_id@, now));
    r
}

/// The tool state that an event reports, if it reports one.
pub open spec fn reported_tool_state(e: Event) -> Option<ToolState> {
    match e.properties {
        Some(p) => match p.part {
            Some(part) => part.state,
            None => None,
        },
        None => None,
    }
}

/// The tool state lacks its start time or its end time.
pub open spec fn lacks_a_time(st: ToolState) -> bool {
    match st.time {
        None => true,
        Some(t) => t.start is None || t.end is None,
    }
}

/// A tool event whose run lacks its start or its end time gets no duration:
/// never a zero or a negative one.
pub proof fn no_duration_without_both_times(e: Event, sid: Seq<char>, now: u64)
    requires
        reported_tool_state(e) matches Some(st) && lacks_a_time(st),
    ensures
        normalized(e, sid, now) matches Some(u) ==> (u.details matches Some(d) && d.duration is None),
{
}

/// The session id that the filter of an event's kind reads: the part's for
/// part updates, the event's own for the others.
pub open spec fn carried_session(e: Event) -> Option<Seq<char>> {
    match e.properties {
        None => None,
        Some(p) => if e.event_type@ == "message.part.updated"@ {
            match p.part {
                Some(part) => opt_text(part.session_id),
                None => None,
            }
        } else {
            opt_text(p.session_id)
        },
    }
}

/// An event that carries the id of another session, or none where one is
/// expected, gives no update.
pub proof fn other_sessions_give_no_update(e: Event, sid: Seq<char>, now: u64)
    requires
        carried_session(e) != Some(sid),
    ensures
        normalized(e, sid, now) is None,
{
    reveal_strlit("session.status");
    reveal_strlit("message.part.updated");
    assert("session.status"@ != "message.part.updated"@) by {
        assert("session.status"@.len() != "message.part.updated"@.len());
    }
    if let Some(p) = e.properties {
        if e.event_type@ == "message.part.updated"@ {
            if let Some(part) = p.part {
                if let Some(s) = part.session_id {
                    assert(opt_text(part.session_id) == Some(s@));
                }
            }
        } else if let Some(s) = p.session_id {
            assert(opt_text(p.session_id) == Some(s@));
        }
    }
}

} // verus!
