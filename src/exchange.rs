//! One message exchange with the agent: what its final response yields, the
//! errors it can end in, and the decisions taken while the agent starts up
//! and while a message is under way.

use crate::event::Event;
use crate::status::{normalize_event, normalized, now_millis, opt_model, StatusModel, StatusUpdate};
use crate::text::{decimal, to_decimal};
use vstd::prelude::*;
use vstd::string::*;

verus! {

/// One part of the agent's final response.
#[derive(Debug)]
pub struct ResponsePart {
    pub part_type: String,
    pub text: Option<String>,
}

/// The texts of the text parts among `parts`, in order.
pub open spec fn response_texts(parts: Seq<ResponsePart>) -> Seq<Seq<char>>
    decreases parts.len(),
{
    if parts.len() == 0 {
        Seq::empty()
    } else {
        let init = response_texts(parts.drop_last());
        let p = parts.last();
        if p.part_type@ == "text"@ && p.text is Some {
            init.push(p.text->0@)
        } else {
            init
        }
    }
}

/// `lines` joined with a newline between each two.
pub open spec fn joined_lines(lines: Seq<Seq<char>>) -> Seq<char>
    decreases lines.len(),
{
    if lines.len() == 0 {
        Seq::empty()
    } else if lines.len() == 1 {
        lines[0]
    } else {
        joined_lines(lines.drop_last()) + "\n"@ + lines.last()
    }
}

/// Said when a response holds no text.
pub open spec fn no_response() -> Seq<char> {
    "No response received."@
}

/// The answer a final response gives: its texts on separate lines.
pub open spec fn final_answer(parts: Option<Seq<ResponsePart>>) -> Seq<char> {
    match parts {
        Some(ps) if response_texts(ps).len() > 0 => joined_lines(response_texts(ps)),
        _ => no_response(),
    }
}

/// The parts, as a sequence.
pub open spec fn parts_view(parts: Option<Vec<ResponsePart>>) -> Option<Seq<ResponsePart>> {
    match parts {
        Some(v) => Some(v@),
        None => None,
    }
}

/// The answer text of a final response.
pub fn collect_answer(parts: Option<Vec<ResponsePart>>) -> (r: String)
    ensures
        r@ == final_answer(parts_view(parts)),
{
    let parts = match parts {
        Some(v) => v,
        None => {
            return String::from_str("No response received.");
        },
    };
    let mut out = String::new();
    let mut count: usize = 0;
    let mut i: usize = 0;
    while i < parts.len()
        invariant
            i <= parts.len(),
            count <= i,
            count == response_texts(parts@.subrange(0, i as int)).len(),
            out@ == joined_lines(response_texts(parts@.subrange(0, i as int))),
        decreases parts.len() - i,
    {
        let ghost before = parts@.subrange(0, i as int);
        assert(parts@.subrange(0, i + 1).drop_last() =~= before);
        let part = &parts[i];
        if is_text_part(part) {
            match &part.text {
                Some(t) => {
                    let ghost texts = response_texts(before);
                    assert(texts.push(t@).drop_last() =~= texts);
                    if count > 0 {
                        out.append("\n");
                    }
                    out.append(t.as_str());
                    count = count + 1;
                },
                None => {},
            }
        }
        i = i + 1;
    }
    assert(parts@.subrange(0, parts@.len() as int) =~= parts@);
    if count == 0 {
        String::from_str("No response received.")
    } else {
        out
    }
}

fn is_text_part(part: &ResponsePart) -> (r: bool)
    ensures
        r == (part.part_type@ == "text"@),
{
    crate::text::same_text(part.part_type.as_str(), "text")
}

/// The two requests whose responses are checked.
#[derive(Debug, Clone, Copy, PartialEq, Eq, Structural)]
pub enum Exchange {
    CreateSession,
    SendMessage,
}

/// How starting the agent or exchanging a message with it can fail.
#[derive(Debug)]
pub enum AgentError {
    /// The agent could not be started.
    SpawnFailed { reason: String },
    /// The agent never answered its health check.
    StartupTimeout { attempts: u32 },
    /// A request could not be sent or its response not be read.
    RequestFailed { reason: String },
    /// The agent answered with a status other than success.
    ProtocolError { exchange: Exchange, status: u16, body: String },
    /// The agent's response did not parse; `snippet` is the start of it.
    ParseError { exchange: Exchange, detail: String, snippet: String },
    /// A message was sent before the agent was ready.
    NotInitialized,
}

/// The text that describes error `e`.
pub open spec fn error_text(e: AgentError) -> Seq<char> {
    match e {
        AgentError::SpawnFailed { reason } => "Failed to start OpenCode server: "@ + reason@,
        AgentError::StartupTimeout { attempts } => "OpenCode server failed to start after "@
            + decimal(attempts as nat) + " retries"@,
        AgentError::RequestFailed { reason } => reason@,
        AgentError::ProtocolError { exchange, status, body } => match exchange {
            Exchange::CreateSession => "Failed to create session ("@ + decimal(status as nat)
                + "): "@ + body@,
            Exchange::SendMessage => "API error ("@ + decimal(status as nat) + "): "@ + body@,
        },
        AgentError::ParseError { exchange, detail, snippet } => match exchange {
            Exchange::CreateSession => "Failed to parse session response: "@ + detail@
                + ". Body: "@ + snippet@,
            Exchange::SendMessage => "Failed to parse response: "@ + detail@ + ". Body: "@
                + snippet@,
        },
        AgentError::NotInitialized => "OpenCode SDK not initialized. Please restart the app."@,
    }
}

impl AgentError {
    /// Describes this error in one line.
    pub fn message(&self) -> (r: String)
        ensures
            r@ == error_text(*self),
    {
        match self {
            AgentError::SpawnFailed { reason } => String::from_str(
                "Failed to start OpenCode server: ",
            ).concat(reason.as_str()),
            AgentError::StartupTimeout { attempts } => String::from_str(
                "OpenCode server failed to start after ",
            ).concat(to_decimal(*attempts as u64).as_str()).concat(" retries"),
            AgentError::RequestFailed { reason } => reason.clone(),
            AgentError::ProtocolError { exchange, status, body } => {
                let head = match exchange {
                    Exchange::CreateSession => String::from_str("Failed to create session ("),
                    Exchange::SendMessage => String::from_str("API error ("),
                };
                head.concat(to_decimal(*status as u64).as_str()).concat("): ").concat(
                    body.as_str(),
                )
            },
            AgentError::ParseError { exchange, detail, snippet } => {
                let head = match exchange {
                    Exchange::CreateSession => String::from_str(
                        "Failed to parse session response: ",
                    ),
                    Exchange::SendMessage => String::from_str("Failed to parse response: "),
                };
                head.concat(detail.as_str()).concat(". Body: ").concat(snippet.as_str())
            },
            AgentError::NotInitialized => String::from_str(
                "OpenCode SDK not initialized. Please restart the app.",
            ),
        }
    }
}

/// An HTTP status that reports success.
pub open spec fn is_success(status: u16) -> bool {
    200 <= status <= 299
}

/// The start of a response body that an error message quotes.
pub open spec fn snippet(body: Seq<char>) -> Seq<char> {
    if body.len() <= 200 {
        body
    } else {
        body.subrange(0, 200)
    }
}

/// Quotes at most the first 200 characters of `body`.
pub fn body_snippet(body: &str) -> (r: String)
    ensures
        r@ == snippet(body@),
{
    let n = body.unicode_len();
    if n <= 200 {
        body.to_owned()
    } else {
        body.substring_char(0, 200).to_owned()
    }
}

/// What the response to a request of kind `exchange` means before its
/// content is looked at: an error unless its status reports success, and
/// a parse error when its body did not parse.
pub open spec fn checked_response<T>(
    exchange: Exchange,
    status: u16,
    body: Seq<char>,
    parsed: Result<T, String>,
    r: Result<T, AgentError>,
) -> bool {
    if !is_success(status) {
        r matches Err(AgentError::ProtocolError { exchange: x, status: s, body: b }) && x == exchange
            && s == status && b@ == body
    } else {
        match parsed {
            Err(detail) => r matches Err(AgentError::ParseError { exchange: x, detail: d, snippet: sn })
                && x == exchange && d@ == detail@ && sn@ == snippet(body),
            Ok(v) => r == Ok::<T, AgentError>(v),
        }
    }
}

fn check_response<T>(exchange: Exchange, status: u16, body: &str, parsed: Result<T, String>) -> (r: Result<T, AgentError>)
    ensures
        checked_response(exchange, status, body@, parsed, r),
{
    if !(200 <= status && status <= 299) {
        return Err(AgentError::ProtocolError { exchange, status, body: body.to_owned() });
    }
    match parsed {
        Err(detail) => Err(AgentError::ParseError { exchange, detail, snippet: body_snippet(body) }),
        Ok(v) => Ok(v),
    }
}

/// What the response to creating a session gives: the new session's id.
/// `parsed` is what reading the id out of `body` gave.
pub fn session_outcome(status: u16, body: &str, parsed: Result<String, String>) -> (r: Result<String, AgentError>)
    ensures
        checked_response(Exchange::CreateSession, status, body@, parsed, r),
{
    check_response(Exchange::CreateSession, status, body, parsed)
}

/// What the response to a message means: the errors of
/// `checked_response`, else the answer of its parts.
pub open spec fn answered_response(
    status: u16,
    body: Seq<char>,
    parsed: Result<Option<Vec<ResponsePart>>, String>,
    r: Result<String, AgentError>,
) -> bool {
    if !is_success(status) {
        r matches Err(AgentError::ProtocolError { exchange: x, status: s, body: b }) && x
            == Exchange::SendMessage && s == status && b@ == body
    } else {
        match parsed {
            Err(detail) => r matches Err(AgentError::ParseError { exchange: x, detail: d, snippet: sn })
                && x == Exchange::SendMessage && d@ == detail@ && sn@ == snippet(body),
            Ok(parts) => r matches Ok(t) && t@ == final_answer(parts_view(parts)),
        }
    }
}

/// What the response to a message gives: the answer text. `parsed` is what
/// reading the parts out of `body` gave.
pub fn response_outcome(
    status: u16,
    body: &str,
    parsed: Result<Option<Vec<ResponsePart>>, String>,
) -> (r: Result<String, AgentError>)
    ensures
        answered_response(status, body@, parsed, r),
{
    match check_response(Exchange::SendMessage, status, body, parsed) {
        Ok(parts) => Ok(collect_answer(parts)),
        Err(e) => Err(e),
    }
}

/// How many failed health checks end the wait for the agent to start.
pub const MAX_HEALTH_CHECKS: u32 = 60;

/// The pause between two health checks, in milliseconds.
pub const HEALTH_CHECK_DELAY_MS: u64 = 500;

/// What to do after a health check.
#[derive(Debug, Clone, Copy, PartialEq, Eq, Structural)]
pub enum HealthStep {
    /// The agent is up.
    Ready,
    /// Check again after the pause.
    Wait { delay_ms: u64 },
    /// Give up: the agent did not start.
    TimedOut,
}

/// The step after health check number `failures + 1`, which succeeded or
/// failed as `healthy` says, when `failures` checks failed before it.
pub open spec fn health_step(failures: nat, healthy: bool) -> HealthStep {
    if healthy {
        HealthStep::Ready
    } else if failures + 1 >= MAX_HEALTH_CHECKS {
        HealthStep::TimedOut
    } else {
        HealthStep::Wait { delay_ms: HEALTH_CHECK_DELAY_MS }
    }
}

/// The wait for a freshly started agent to answer its health check.
pub struct HealthCheck {
    failures: u32,
}

impl HealthCheck {
    /// How many checks have failed so far.
    pub closed spec fn failures(&self) -> nat {
        self.failures as nat
    }

    /// No more failures are counted than the limit.
    pub closed spec fn wf(&self) -> bool {
        self.failures <= MAX_HEALTH_CHECKS
    }

    /// A wait in which no check has failed yet.
    pub fn new() -> (r: HealthCheck)
        ensures
            r.wf(),
            r.failures() == 0,
    {
        HealthCheck { failures: 0 }
    }

    /// Records the result of one health check and says what comes next.
    pub fn record(&mut self, healthy: bool) -> (r: HealthStep)
        requires
            old(self).wf(),
        ensures
            final(self).wf(),
            r == health_step(old(self).failures(), healthy),
            final(self).failures() == if healthy {
                old(self).failures()
            } else if old(self).failures() + 1 >= MAX_HEALTH_CHECKS {
                MAX_HEALTH_CHECKS as nat
            } else {
                old(self).failures() + 1
            },
    {
        if healthy {
            return HealthStep::Ready;
        }
        if self.failures + 1 >= MAX_HEALTH_CHECKS {
            self.failures = MAX_HEALTH_CHECKS;
            HealthStep::TimedOut
        } else {
            self.failures = self.failures + 1;
            HealthStep::Wait { delay_ms: HEALTH_CHECK_DELAY_MS }
        }
    }

    /// The error that giving up ends in.
    pub fn timeout_error(&self) -> (r: AgentError)
        ensures
            r == (AgentError::StartupTimeout { attempts: MAX_HEALTH_CHECKS }),
    {
        AgentError::StartupTimeout { attempts: MAX_HEALTH_CHECKS }
    }
}

/// Failed health checks are retried after the pause until the last one
/// allowed: that one gives up.
pub proof fn health_checks_give_up_at_the_limit(failures: nat)
    requires
        failures < MAX_HEALTH_CHECKS,
    ensures
        failures + 1 < MAX_HEALTH_CHECKS ==> health_step(failures, false) == (HealthStep::Wait {
            delay_ms: HEALTH_CHECK_DELAY_MS,
        }),
        failures + 1 == MAX_HEALTH_CHECKS ==> health_step(failures, false) == HealthStep::TimedOut,
        health_step(failures, true) == HealthStep::Ready,
{
}

/// Where one message exchange stands.
#[derive(Debug, Clone, Copy, PartialEq, Eq, Structural)]
pub enum RunState {
    Sending,
    Answered,
    Failed,
}

/// One message under way in session `session_id`: while it is being sent,
/// events of the session become status updates; once it is answered or has
/// failed, none do.
pub struct MessageRun {
    session_id: String,
    state: RunState,
}

impl MessageRun {
    /// The session whose events the run relays.
    pub closed spec fn session(&self) -> Seq<char> {
        self.session_id@
    }

    /// Where the run stands.
    pub closed spec fn state(&self) -> RunState {
        self.state
    }

    /// The update that `e`, arriving at time `now`, gives in this run.
    pub open spec fn delivered(&self, e: Event, now: u64) -> Option<StatusModel> {
        if self.state() == RunState::Sending {
            normalized(e, self.session(), now)
        } else {
            None
        }
    }

    /// Starts sending a message in session `session_id`.
    pub fn start(session_id: &str) -> (r: MessageRun)
        ensures
            r.session() == session_id@,
            r.state() == RunState::Sending,
    {
        MessageRun { session_id: session_id.to_owned(), state: RunState::Sending }
    }

    /// Where the run stands now.
    pub fn current_state(&self) -> (r: RunState)
        ensures
            r == self.state(),
    {
        self.state
    }

    /// The update for an event that arrived at time `now`.
    pub fn deliver(&self, event: Event, now: u64) -> (r: Option<StatusUpdate>)
        ensures
            opt_model(r) == self.delivered(event, now),
    {
        match self.state {
            RunState::Sending => normalize_event(event, self.session_id.as_str(), now),
            _ => None,
        }
    }

    /// The update for an event that arrives now.
    pub fn relay(&self, event: Event) -> (r: Option<StatusUpdate>)
        ensures
            exists|t: u64| opt_model(r) == self.delivered(event, t),
    {
        let ghost e = event;
        let now = now_millis();
        let r = self.deliver(event, now);
        assert(opt_model(r) == self.delivered(e, now));
        r
    }

    /// Ends the run with `outcome`, which it hands back.
    pub fn finish(&mut self, outcome: Result<String, AgentError>) -> (r: Result<String, AgentError>)
        ensures
            final(self).session() == old(self).session(),
            final(self).state() == if outcome is Ok {
                RunState::Answered
            } else {
                RunState::Failed
            },
            r == outcome,
    {
        self.state = match &outcome {
            Ok(_) => RunState::Answered,
            Err(_) => RunState::Failed,
        };
        outcome
    }
}

/// Once a run is answered or has failed, no event gives an update.
pub proof fn no_updates_after_finish(run: MessageRun, e: Event, now: u64)
    requires
        run.state() != RunState::Sending,
    ensures
        run.delivered(e, now) is None,
{
}

} // verus!
