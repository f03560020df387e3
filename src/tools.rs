//! How tool runs are described on a status line: a label for the tool and a
//! short summary of its input.

use crate::event::{as_text, get, JsonValue};
use crate::text::{base_name, file_name_of, lower_of, lowercase, quote, quoted, same_text, truncate_for_status, truncated};
use vstd::prelude::*;
use vstd::string::*;

verus! {

/// The tools that have their own label or input summary.
#[derive(Debug, Clone, Copy, PartialEq, Eq, Structural)]
pub enum ToolKind {
    Read,
    Write,
    Edit,
    Bash,
    Glob,
    Grep,
    ListDirectory,
    WebSearch,
    WebFetch,
    Other,
}

/// The kind of a tool, by its lower-case name.
pub open spec fn tool_kind(lower: Seq<char>) -> ToolKind {
    if lower == "read"@ {
        ToolKind::Read
    } else if lower == "write"@ {
        ToolKind::Write
    } else if lower == "edit"@ {
        ToolKind::Edit
    } else if lower == "bash"@ {
        ToolKind::Bash
    } else if lower == "glob"@ {
        ToolKind::Glob
    } else if lower == "grep"@ {
        ToolKind::Grep
    } else if lower == "list_directory"@ {
        ToolKind::ListDirectory
    } else if lower == "web_search"@ {
        ToolKind::WebSearch
    } else if lower == "web_fetch"@ {
        ToolKind::WebFetch
    } else {
        ToolKind::Other
    }
}

impl ToolKind {
    /// The kind of the tool with the lower-case name `name`.
    pub fn of_lowercase(name: &str) -> (r: ToolKind)
        ensures
            r == tool_kind(name@),
    {
        if same_text(name, "read") {
            ToolKind::Read
        } else if same_text(name, "write") {
            ToolKind::Write
        } else if same_text(name, "edit") {
            ToolKind::Edit
        } else if same_text(name, "bash") {
            ToolKind::Bash
        } else if same_text(name, "glob") {
            ToolKind::Glob
        } else if same_text(name, "grep") {
            ToolKind::Grep
        } else if same_text(name, "list_directory") {
            ToolKind::ListDirectory
        } else if same_text(name, "web_search") {
            ToolKind::WebSearch
        } else if same_text(name, "web_fetch") {
            ToolKind::WebFetch
        } else {
            ToolKind::Other
        }
    }

    /// The kind of the tool named `name`, in any letter case.
    pub fn of_name(name: &str) -> (r: ToolKind)
        ensures
            r == tool_kind(lower_of(name@)),
    {
        let lower = lowercase(name);
        ToolKind::of_lowercase(lower.as_str())
    }
}

/// The label of a tool of kind `kind` named `name`.
pub open spec fn kind_description(kind: ToolKind, name: Seq<char>) -> Seq<char> {
    match kind {
        ToolKind::Read => "Reading file"@,
        ToolKind::Write => "Writing file"@,
        ToolKind::Edit => "Editing file"@,
        ToolKind::Bash => "Running command"@,
        ToolKind::Glob => "Searching files"@,
        ToolKind::Grep => "Searching content"@,
        ToolKind::ListDirectory => "Listing directory"@,
        ToolKind::WebSearch => "Searching the web"@,
        ToolKind::WebFetch => "Fetching webpage"@,
        ToolKind::Other => "Running "@ + name,
    }
}

/// The label of tool `name`: its title when it has one.
pub open spec fn tool_description(name: Seq<char>, title: Option<Seq<char>>) -> Seq<char> {
    match title {
        Some(t) => t,
        None => kind_description(tool_kind(lower_of(name)), name),
    }
}

/// The text of a string, if there is one.
pub open spec fn opt_str(o: Option<&str>) -> Option<Seq<char>> {
    match o {
        Some(s) => Some(s@),
        None => None,
    }
}

/// Labels a tool of kind `kind` named `name`.
pub fn describe_kind(kind: ToolKind, name: &str) -> (r: String)
    ensures
        r@ == kind_description(kind, name@),
{
    match kind {
        ToolKind::Read => String::from_str("Reading file"),
        ToolKind::Write => String::from_str("Writing file"),
        ToolKind::Edit => String::from_str("Editing file"),
        ToolKind::Bash => String::from_str("Running command"),
        ToolKind::Glob => String::from_str("Searching files"),
        ToolKind::Grep => String::from_str("Searching content"),
        ToolKind::ListDirectory => String::from_str("Listing directory"),
        ToolKind::WebSearch => String::from_str("Searching the web"),
        ToolKind::WebFetch => String::from_str("Fetching webpage"),
        ToolKind::Other => String::from_str("Running ").concat(name),
    }
}

/// Labels tool `tool_name`, preferring the title the tool gave itself.
pub fn get_tool_description(tool_name: &str, title: Option<&str>) -> (r: String)
    ensures
        r@ == tool_description(tool_name@, opt_str(title)),
{
    match title {
        Some(t) => t.to_owned(),
        None => describe_kind(ToolKind::of_name(tool_name), tool_name),
    }
}

/// The path a file tool works on: the first of `file_path`, `path` and
/// `filename` that is present, when that one is a string.
pub open spec fn path_member(v: JsonValue) -> Option<Seq<char>> {
    match get(v, "file_path"@) {
        Some(x) => as_text(Some(x)),
        None => match get(v, "path"@) {
            Some(x) => as_text(Some(x)),
            None => as_text(get(v, "filename"@)),
        },
    }
}

/// What `url::Url::parse` and `url::Url::host_str` make of a text: `None`
/// when it does not parse, else the host, if the URL has one.
pub uninterp spec fn url_host_of(s: Seq<char>) -> Option<Option<Seq<char>>>;

/// The error that `url::Url::parse` returns; nothing is read from it.
#[verifier::external_type_specification]
#[verifier::external_body]
pub struct ExParseError(url::ParseError);

/// The text of a string, if there is one.
pub open spec fn opt_text(o: Option<String>) -> Option<Seq<char>> {
    match o {
        Some(s) => Some(s@),
        None => None,
    }
}

/// Relies on `url::Url::parse`, and on `url::Url::host_str` of what it
/// parsed: both depend on the text alone.
#[verifier::external_body]
fn parse_url_host(u: &str) -> (r: Result<Option<String>, url::ParseError>)
    ensures
        r matches Ok(h) ==> url_host_of(u@) == Some(opt_text(h)),
        r is Err ==> url_host_of(u@) is None,
{
    match url::Url::parse(u) {
        Ok(parsed) => Ok(parsed.host_str().map(|h| h.to_string())),
        Err(e) => Err(e),
    }
}

/// The label of a fetched address: its host, the address itself when it
/// has none, and a shortened address when it does not parse.
pub open spec fn fetch_label(url: Seq<char>, host: Option<Option<Seq<char>>>) -> Seq<char> {
    match host {
        Some(Some(h)) => h,
        Some(None) => url,
        None => truncated(url, 40),
    }
}

/// Labels a fetched address from what parsing it gave.
pub fn web_fetch_label(url: &str, host: Option<Option<String>>) -> (r: String)
    ensures
        r@ == fetch_label(url@, match host {
            Some(h) => Some(opt_text(h)),
            None => None,
        }),
{
    match host {
        Some(Some(h)) => h,
        Some(None) => url.to_owned(),
        None => truncate_for_status(url, 40),
    }
}

/// The short summary of a tool's input for its status line.
pub open spec fn status_summary(kind: ToolKind, input: Option<JsonValue>) -> Seq<char> {
    match input {
        None => Seq::empty(),
        Some(v) => match kind {
            ToolKind::Read | ToolKind::Write | ToolKind::Edit => match path_member(v) {
                Some(p) => base_name(p),
                None => Seq::empty(),
            },
            ToolKind::Bash => match as_text(get(v, "command"@)) {
                Some(c) => truncated(c, 50),
                None => Seq::empty(),
            },
            ToolKind::Glob => match as_text(get(v, "pattern"@)) {
                Some(p) => truncated(p, 40),
                None => Seq::empty(),
            },
            ToolKind::Grep => match as_text(get(v, "pattern"@)) {
                Some(p) => quoted(truncated(p, 30)),
                None => Seq::empty(),
            },
            ToolKind::WebSearch => match as_text(get(v, "query"@)) {
                Some(q) => quoted(truncated(q, 40)),
                None => Seq::empty(),
            },
            ToolKind::WebFetch => match as_text(get(v, "url"@)) {
                Some(u) => fetch_label(u, url_host_of(u)),
                None => Seq::empty(),
            },
            _ => Seq::empty(),
        },
    }
}

/// The full summary of a tool's input, as kept beside the status line.
pub open spec fn log_summary(kind: ToolKind, input: Option<JsonValue>) -> Seq<char> {
    match input {
        None => Seq::empty(),
        Some(v) => match kind {
            ToolKind::Read | ToolKind::Write | ToolKind::Edit => match path_member(v) {
                Some(p) => p,
                None => Seq::empty(),
            },
            ToolKind::Bash => match as_text(get(v, "command"@)) {
                Some(c) => c,
                None => Seq::empty(),
            },
            ToolKind::Glob => match as_text(get(v, "pattern"@)) {
                Some(p) => p,
                None => Seq::empty(),
            },
            ToolKind::Grep => match as_text(get(v, "pattern"@)) {
                Some(p) => quoted(p),
                None => Seq::empty(),
            },
            ToolKind::WebSearch => match as_text(get(v, "query"@)) {
                Some(q) => quoted(q),
                None => Seq::empty(),
            },
            ToolKind::WebFetch => match as_text(get(v, "url"@)) {
                Some(u) => u,
                None => Seq::empty(),
            },
            _ => Seq::empty(),
        },
    }
}

/// Reads the path member of a file tool's input.
fn path_of(v: &JsonValue) -> (r: Option<String>)
    ensures
        opt_text(r) == path_member(*v),
{
    match v.find_member("file_path") {
        Some(x) => x.text_value(),
        None => match v.find_member("path") {
            Some(x) => x.text_value(),
            None => match v.find_member("filename") {
                Some(x) => x.text_value(),
                None => None,
            },
        },
    }
}

/// Summarizes the input of a tool of kind `kind` for its status line.
pub fn summarize_for_status(kind: ToolKind, input: &Option<JsonValue>) -> (r: String)
    ensures
        r@ == status_summary(kind, *input),
{
    let v = match input {
        Some(v) => v,
        None => {
            return String::new();
        },
    };
    let found = match kind {
        ToolKind::Read | ToolKind::Write | ToolKind::Edit => match path_of(v) {
            Some(p) => Some(file_name_of(p.as_str())),
            None => None,
        },
        ToolKind::Bash => match v.text_member("command") {
            Some(c) => Some(truncate_for_status(c.as_str(), 50)),
            None => None,
        },
        ToolKind::Glob => match v.text_member("pattern") {
            Some(p) => Some(truncate_for_status(p.as_str(), 40)),
            None => None,
        },
        ToolKind::Grep => match v.text_member("pattern") {
            Some(p) => Some(quote(truncate_for_status(p.as_str(), 30).as_str())),
            None => None,
        },
        ToolKind::WebSearch => match v.text_member("query") {
            Some(q) => Some(quote(truncate_for_status(q.as_str(), 40).as_str())),
            None => None,
        },
        ToolKind::WebFetch => match v.text_member("url") {
            Some(u) => {
                let host = match parse_url_host(u.as_str()) {
                    Ok(h) => Some(h),
                    Err(_) => None,
                };
                Some(web_fetch_label(u.as_str(), host))
            },
            None => None,
        },
        _ => None,
    };
    match found {
        Some(t) => t,
        None => String::new(),
    }
}

/// Summarizes the input of a tool of kind `kind` in full.
pub fn summarize_for_log(kind: ToolKind, input: &Option<JsonValue>) -> (r: String)
    ensures
        r@ == log_summary(kind, *input),
{
    let v = match input {
        Some(v) => v,
        None => {
            return String::new();
        },
    };
    let found = match kind {
        ToolKind::Read | ToolKind::Write | ToolKind::Edit => path_of(v),
        ToolKind::Bash => v.text_member("command"),
        ToolKind::Glob => v.text_member("pattern"),
        ToolKind::Grep => match v.text_member("pattern") {
            Some(p) => Some(quote(p.as_str())),
            None => None,
        },
        ToolKind::WebSearch => match v.text_member("query") {
            Some(q) => Some(quote(q.as_str())),
            None => None,
        },
        ToolKind::WebFetch => v.text_member("url"),
        _ => None,
    };
    match found {
        Some(t) => t,
        None => String::new(),
    }
}

/// The status-line summary of the input of tool `tool_name`.
pub fn format_tool_input_for_status(tool_name: &str, input: &Option<JsonValue>) -> (r: String)
    ensures
        r@ == status_summary(tool_kind(lower_of(tool_name@)), *input),
{
    summarize_for_status(ToolKind::of_name(tool_name), input)
}

/// The full summary of the input of tool `tool_name`.
pub fn format_tool_input_for_log(tool_name: &str, input: &Option<JsonValue>) -> (r: String)
    ensures
        r@ == log_summary(tool_kind(lower_of(tool_name@)), *input),
{
    summarize_for_log(ToolKind::of_name(tool_name), input)
}

} // verus!
