//! The request listener: what a line read from a caller makes it forward.
//!
//! A caller writes one JSON object on each line:
//!
//! ```text
//! {"type":"set_path","monitor":<string or null>,"path":<string>}
//! {"type":"set_url","monitor":<string or null>,"url":<string>}
//! ```
//!
//! `monitor` may be left out, which says the same as `null`. Members that
//! are not named here are passed over, and of members of one name the last
//! counts. Any other line is rejected, and the listener reads on. No other
//! form of request is understood.

use vstd::prelude::*;
use vstd::string::*;
use crate::event::{
    Ipc, IpcEvent, IpcEventView, IpcView, RequestServer, RequestServerView, RequestWebview,
    RequestWebviewView, TokioEvent, TokioEventView,
};
use crate::text::trimmed;

verus! {

/// `serde_json::Value`, a parsed JSON document. Nothing is known of it but
/// what [`json_members`] names.
#[verifier::external_type_specification]
#[verifier::external_body]
pub struct ExJsonValue(serde_json::Value);

/// `serde_json::Error`, the reason why a text is not JSON. Nothing is known
/// of it.
#[verifier::external_type_specification]
#[verifier::external_body]
pub struct ExJsonError(serde_json::Error);

/// What the decoder reads of a member of a JSON object: which kind of value
/// it is, and the text where it is a string.
#[derive(Debug, Clone, PartialEq, Eq)]
pub enum Member {
    Null,
    Bool,
    Number,
    Text(String),
    Array,
    Object,
}

/// The view of [`Member`]: every text in it as the sequence of its characters.
pub enum MemberView {
    Null,
    Bool,
    Number,
    Text(Seq<char>),
    Array,
    Object,
}

impl View for Member {
    type V = MemberView;

    open spec fn view(&self) -> MemberView {
        match *self {
            Member::Null => MemberView::Null,
            Member::Bool => MemberView::Bool,
            Member::Number => MemberView::Number,
            Member::Text(t) => MemberView::Text(t@),
            Member::Array => MemberView::Array,
            Member::Object => MemberView::Object,
        }
    }
}

impl DeepView for Member {
    type V = MemberView;

    open spec fn deep_view(&self) -> MemberView {
        self@
    }
}

/// The members that a parsed document holds under string keys: those of the
/// object where it is one, none where it is any other value.
pub uninterp spec fn json_members(doc: serde_json::Value) -> Map<Seq<char>, MemberView>;

/// The members of the document that `text` denotes, where `text` is one
/// JSON value and nothing else.
pub uninterp spec fn json_text_members(text: Seq<char>) -> Option<Map<Seq<char>, MemberView>>;

/// `serde_json::from_str` at `serde_json::Value`: the document that `text`
/// denotes, or the error where `text` is not one JSON value. The same text
/// always gives the same members.
#[verifier::external_body]
fn parse(text: &str) -> (parsed: Result<serde_json::Value, serde_json::Error>)
    ensures
        match parsed {
            Ok(doc) => json_text_members(text@) == Some(json_members(doc)),
            Err(_) => json_text_members(text@) is None,
        },
{
    serde_json::from_str::<serde_json::Value>(text)
}

/// `serde_json::Value::get` with a string key: the member of that name,
/// none where the document has no such member or is no object. Of the
/// member it tells the kind, and the text where it is a string.
#[verifier::external_body]
fn member(doc: &serde_json::Value, key: &str) -> (found: Option<Member>)
    ensures
        found.deep_view() == member_at(json_members(*doc), key@),
{
    match doc.get(key) {
        None => None,
        Some(serde_json::Value::Null) => Some(Member::Null),
        Some(serde_json::Value::Bool(_)) => Some(Member::Bool),
        Some(serde_json::Value::Number(_)) => Some(Member::Number),
        Some(serde_json::Value::String(text)) => Some(Member::Text(text.clone())),
        Some(serde_json::Value::Array(_)) => Some(Member::Array),
        Some(serde_json::Value::Object(_)) => Some(Member::Object),
    }
}

/// The member under `key`, if there is one.
pub open spec fn member_at(members: Map<Seq<char>, MemberView>, key: Seq<char>) -> Option<
    MemberView,
> {
    if members.contains_key(key) {
        Some(members[key])
    } else {
        None
    }
}

/// Why a line is rejected.
#[derive(Debug, Clone, Copy, PartialEq, Eq)]
pub enum IpcError {
    /// The line is not one JSON value.
    NotJson,
    /// There is no member `type`, or it is no string.
    NoType,
    /// `type` is neither `set_path` nor `set_url`.
    UnknownType,
    /// `monitor` is neither a string nor `null`.
    BadMonitor,
    /// A `set_path` without a string `path`.
    NoPath,
    /// A `set_url` without a string `url`.
    NoUrl,
}

/// The monitor that a member `monitor` names.
pub open spec fn monitor_named(monitor: Option<MemberView>) -> Result<Option<Seq<char>>, IpcError> {
    match monitor {
        None => Ok(None),
        Some(MemberView::Null) => Ok(None),
        Some(MemberView::Text(name)) => Ok(Some(name)),
        Some(_) => Err(IpcError::BadMonitor),
    }
}

/// The request that an object with these members `type`, `monitor`, `path`
/// and `url` makes.
pub open spec fn request_of(
    tag: Option<MemberView>,
    monitor: Option<MemberView>,
    path: Option<MemberView>,
    url: Option<MemberView>,
) -> Result<IpcView, IpcError> {
    match tag {
        Some(MemberView::Text(kind)) => {
            if kind == "set_path"@ {
                match (monitor_named(monitor), path) {
                    (Err(e), _) => Err(e),
                    (Ok(monitor), Some(MemberView::Text(path))) => Ok(
                        IpcView::SetPath { monitor, path },
                    ),
                    (Ok(_), _) => Err(IpcError::NoPath),
                }
            } else if kind == "set_url"@ {
                match (monitor_named(monitor), url) {
                    (Err(e), _) => Err(e),
                    (Ok(monitor), Some(MemberView::Text(url))) => Ok(
                        IpcView::SetUrl { monitor, url },
                    ),
                    (Ok(_), _) => Err(IpcError::NoUrl),
                }
            } else {
                Err(IpcError::UnknownType)
            }
        },
        _ => Err(IpcError::NoType),
    }
}

/// The view of a decoded request, or the error.
pub open spec fn decoded_view(decoded: Result<Ipc, IpcError>) -> Result<IpcView, IpcError> {
    match decoded {
        Ok(request) => Ok(request@),
        Err(e) => Err(e),
    }
}

fn monitor_of(monitor: Option<Member>) -> (named: Result<Option<String>, IpcError>)
    ensures
        match named {
            Ok(name) => monitor_named(monitor.deep_view()) == Ok::<Option<Seq<char>>, IpcError>(
                name.deep_view(),
            ),
            Err(e) => monitor_named(monitor.deep_view()) == Err::<Option<Seq<char>>, IpcError>(e),
        },
{
    match monitor {
        None => Ok(None),
        Some(Member::Null) => Ok(None),
        Some(Member::Text(name)) => Ok(Some(name)),
        Some(_) => Err(IpcError::BadMonitor),
    }
}

impl Ipc {
    /// The request that an object with these members `type`, `monitor`,
    /// `path` and `url` makes.
    pub fn from_members(
        tag: Option<Member>,
        monitor: Option<Member>,
        path: Option<Member>,
        url: Option<Member>,
    ) -> (decoded: Result<Ipc, IpcError>)
        ensures
            decoded_view(decoded) == request_of(
                tag.deep_view(),
                monitor.deep_view(),
                path.deep_view(),
                url.deep_view(),
            ),
    {
        match tag {
            Some(Member::Text(kind)) => {
                if *kind.as_str() == *"set_path" {
                    match monitor_of(monitor) {
                        Err(e) => Err(e),
                        Ok(monitor) => match path {
                            Some(Member::Text(path)) => Ok(Ipc::SetPath { monitor, path }),
                            _ => Err(IpcError::NoPath),
                        },
                    }
                } else if *kind.as_str() == *"set_url" {
                    match monitor_of(monitor) {
                        Err(e) => Err(e),
                        Ok(monitor) => match url {
                            Some(Member::Text(url)) => Ok(Ipc::SetUrl { monitor, url }),
                            _ => Err(IpcError::NoUrl),
                        },
                    }
                } else {
                    Err(IpcError::UnknownType)
                }
            },
            _ => Err(IpcError::NoType),
        }
    }

    /// The request that the JSON text `text` makes.
    pub open spec fn decoded(text: Seq<char>) -> Result<IpcView, IpcError> {
        match json_text_members(text) {
            None => Err(IpcError::NotJson),
            Some(members) => request_of(
                member_at(members, "type"@),
                member_at(members, "monitor"@),
                member_at(members, "path"@),
                member_at(members, "url"@),
            ),
        }
    }

    /// Reads a request from JSON text.
    pub fn decode(text: &str) -> (decoded: Result<Ipc, IpcError>)
        ensures
            decoded_view(decoded) == Ipc::decoded(text@),
    {
        match parse(text) {
            Err(_) => Err(IpcError::NotJson),
            Ok(doc) => Ipc::from_members(
                member(&doc, "type"),
                member(&doc, "monitor"),
                member(&doc, "path"),
                member(&doc, "url"),
            ),
        }
    }
}

/// What the listener forwards for a request: for a directory a request for
/// a server, for an address a request for the displays.
pub open spec fn forwarded(request: IpcView) -> TokioEventView {
    match request {
        IpcView::SetPath { monitor, path } => TokioEventView::IpcEvent(
            IpcEventView::RequestServer(RequestServerView { path, connector: monitor }),
        ),
        IpcView::SetUrl { monitor, url } => TokioEventView::IpcEvent(
            IpcEventView::RequestWebview(RequestWebviewView { url, connector: monitor }),
        ),
    }
}

/// What the listener forwards for a request.
pub fn forward(request: Ipc) -> (event: TokioEvent)
    ensures
        event@ == forwarded(request@),
{
    match request {
        Ipc::SetPath { monitor, path } => TokioEvent::IpcEvent(
            IpcEvent::RequestServer(RequestServer { path, connector: monitor }),
        ),
        Ipc::SetUrl { monitor, url } => TokioEvent::IpcEvent(
            IpcEvent::RequestWebview(RequestWebview { url, connector: monitor }),
        ),
    }
}

/// What a line makes the listener do.
#[derive(Debug, Clone, PartialEq, Eq)]
pub enum Line {
    /// Nothing but white space: passed over.
    Blank,
    /// Not a request: reported, and the connection stays open.
    Rejected(IpcError),
    /// A request: this goes to the router.
    Forward(TokioEvent),
}

/// The view of [`Line`]: every text in it as the sequence of its characters.
pub enum LineView {
    Blank,
    Rejected(IpcError),
    Forward(TokioEventView),
}

impl View for Line {
    type V = LineView;

    open spec fn view(&self) -> LineView {
        match *self {
            Line::Blank => LineView::Blank,
            Line::Rejected(e) => LineView::Rejected(e),
            Line::Forward(e) => LineView::Forward(e@),
        }
    }
}

/// What `line` makes the listener do. The white space around it does not
/// count.
pub open spec fn line_read(line: Seq<char>) -> LineView {
    let text = trimmed(line);
    if text.len() == 0 {
        LineView::Blank
    } else {
        match Ipc::decoded(text) {
            Ok(request) => LineView::Forward(forwarded(request)),
            Err(e) => LineView::Rejected(e),
        }
    }
}

/// Handles one line that a caller has sent.
pub fn ipc_server(line: &str) -> (read: Line)
    ensures
        read@ == line_read(line@),
{
    let text = line.trim();
    if text.is_empty() {
        Line::Blank
    } else {
        match Ipc::decode(text) {
            Ok(request) => Line::Forward(forward(request)),
            Err(e) => Line::Rejected(e),
        }
    }
}

} // verus!
