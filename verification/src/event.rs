//! Messages exchanged with callers and between the three domains.
//!
//! Every message is plain data. Its view replaces each string by the sequence
//! of its characters, and the contracts of the crate speak about views only.

use vstd::prelude::*;

verus! {

/// A request as it arrives on the wire, one JSON object per line, tagged by
/// its `type` member: `set_path` or `set_url`.
#[derive(Debug, Clone, PartialEq, Eq)]
pub enum Ipc {
    SetPath { monitor: Option<String>, path: String },
    SetUrl { monitor: Option<String>, url: String },
}

/// The view of [`Ipc`]: every text in it as the sequence of its characters.
pub enum IpcView {
    SetPath { monitor: Option<Seq<char>>, path: Seq<char> },
    SetUrl { monitor: Option<Seq<char>>, url: Seq<char> },
}

impl View for Ipc {
    type V = IpcView;

    open spec fn view(&self) -> IpcView {
        match *self {
            Ipc::SetPath { monitor, path } => IpcView::SetPath {
                monitor: monitor.deep_view(),
                path: path@,
            },
            Ipc::SetUrl { monitor, url } => IpcView::SetUrl {
                monitor: monitor.deep_view(),
                url: url@,
            },
        }
    }
}

/// A caller asks that a local directory be shown.
#[derive(Debug, Clone, PartialEq, Eq)]
pub struct RequestServer {
    pub path: String,
    pub connector: Option<String>,
}

/// The view of [`RequestServer`]: every text in it as the sequence of its characters.
pub struct RequestServerView {
    pub path: Seq<char>,
    pub connector: Option<Seq<char>>,
}

impl View for RequestServer {
    type V = RequestServerView;

    open spec fn view(&self) -> RequestServerView {
        RequestServerView { path: self.path@, connector: self.connector.deep_view() }
    }
}

/// One more watcher for the server of `path`. `connector` says where the
/// answer is to be shown; it takes no part in the counting.
#[derive(Debug, Clone, PartialEq, Eq)]
pub struct AcquireServer {
    pub path: String,
    pub connector: Option<String>,
}

/// The view of [`AcquireServer`]: every text in it as the sequence of its characters.
pub struct AcquireServerView {
    pub path: Seq<char>,
    pub connector: Option<Seq<char>>,
}

impl View for AcquireServer {
    type V = AcquireServerView;

    open spec fn view(&self) -> AcquireServerView {
        AcquireServerView { path: self.path@, connector: self.connector.deep_view() }
    }
}

/// One watcher of the server of `path` has gone.
#[derive(Debug, Clone, PartialEq, Eq)]
pub struct ReleaseServer {
    pub path: String,
}

/// The view of [`ReleaseServer`]: every text in it as the sequence of its characters.
pub struct ReleaseServerView {
    pub path: Seq<char>,
}

impl View for ReleaseServer {
    type V = ReleaseServerView;

    open spec fn view(&self) -> ReleaseServerView {
        ReleaseServerView { path: self.path@ }
    }
}

/// A caller asks that a remote address be shown.
#[derive(Debug, Clone, PartialEq, Eq)]
pub struct RequestWebview {
    pub url: String,
    pub connector: Option<String>,
}

/// The view of [`RequestWebview`]: every text in it as the sequence of its characters.
pub struct RequestWebviewView {
    pub url: Seq<char>,
    pub connector: Option<Seq<char>>,
}

impl View for RequestWebview {
    type V = RequestWebviewView;

    open spec fn view(&self) -> RequestWebviewView {
        RequestWebviewView { url: self.url@, connector: self.connector.deep_view() }
    }
}

/// What a display is told to load. `path` is set exactly when `url` is served
/// by a managed server, and is then the key to release later. Without a
/// `connector` the command is for every display.
#[derive(Debug, Clone, PartialEq, Eq)]
pub struct SetWebview {
    pub url: String,
    pub path: Option<String>,
    pub connector: Option<String>,
}

/// The view of [`SetWebview`]: every text in it as the sequence of its characters.
pub struct SetWebviewView {
    pub url: Seq<char>,
    pub path: Option<Seq<char>>,
    pub connector: Option<Seq<char>>,
}

impl View for SetWebview {
    type V = SetWebviewView;

    open spec fn view(&self) -> SetWebviewView {
        SetWebviewView {
            url: self.url@,
            path: self.path.deep_view(),
            connector: self.connector.deep_view(),
        }
    }
}

/// What the listener forwards.
#[derive(Debug, Clone, PartialEq, Eq)]
pub enum IpcEvent {
    RequestServer(RequestServer),
    RequestWebview(RequestWebview),
}

/// The view of [`IpcEvent`]: every text in it as the sequence of its characters.
pub enum IpcEventView {
    RequestServer(RequestServerView),
    RequestWebview(RequestWebviewView),
}

impl View for IpcEvent {
    type V = IpcEventView;

    open spec fn view(&self) -> IpcEventView {
        match *self {
            IpcEvent::RequestServer(r) => IpcEventView::RequestServer(r@),
            IpcEvent::RequestWebview(r) => IpcEventView::RequestWebview(r@),
        }
    }
}

/// What the resource manager answers.
#[derive(Debug, Clone, PartialEq, Eq)]
pub enum WebEvent {
    SetWebview(SetWebview),
}

/// The view of [`WebEvent`]: every text in it as the sequence of its characters.
pub enum WebEventView {
    SetWebview(SetWebviewView),
}

impl View for WebEvent {
    type V = WebEventView;

    open spec fn view(&self) -> WebEventView {
        match *self {
            WebEvent::SetWebview(s) => WebEventView::SetWebview(s@),
        }
    }
}

/// Everything that reaches the router from the listener and the manager.
#[derive(Debug, Clone, PartialEq, Eq)]
pub enum TokioEvent {
    IpcEvent(IpcEvent),
    WebEvent(WebEvent),
}

/// The view of [`TokioEvent`]: every text in it as the sequence of its characters.
pub enum TokioEventView {
    IpcEvent(IpcEventView),
    WebEvent(WebEventView),
}

impl View for TokioEvent {
    type V = TokioEventView;

    open spec fn view(&self) -> TokioEventView {
        match *self {
            TokioEvent::IpcEvent(e) => TokioEventView::IpcEvent(e@),
            TokioEvent::WebEvent(e) => TokioEventView::WebEvent(e@),
        }
    }
}

/// What the display registry reports back.
#[derive(Debug, Clone, PartialEq, Eq)]
pub enum UiEvent {
    ReleaseServer(ReleaseServer),
}

/// The view of [`UiEvent`]: every text in it as the sequence of its characters.
pub enum UiEventView {
    ReleaseServer(ReleaseServerView),
}

impl View for UiEvent {
    type V = UiEventView;

    open spec fn view(&self) -> UiEventView {
        match *self {
            UiEvent::ReleaseServer(r) => UiEventView::ReleaseServer(r@),
        }
    }
}

/// What the display registry is told.
#[derive(Debug, Clone, PartialEq, Eq)]
pub enum UiCmd {
    SetWebview(SetWebview),
}

/// The view of [`UiCmd`]: every text in it as the sequence of its characters.
pub enum UiCmdView {
    SetWebview(SetWebviewView),
}

impl View for UiCmd {
    type V = UiCmdView;

    open spec fn view(&self) -> UiCmdView {
        match *self {
            UiCmd::SetWebview(s) => UiCmdView::SetWebview(s@),
        }
    }
}

/// What the resource manager is told.
#[derive(Debug, Clone, PartialEq, Eq)]
pub enum WebCmd {
    AcquireServer(AcquireServer),
    ReleaseServer(ReleaseServer),
}

/// The view of [`WebCmd`]: every text in it as the sequence of its characters.
pub enum WebCmdView {
    AcquireServer(AcquireServerView),
    ReleaseServer(ReleaseServerView),
}

impl View for WebCmd {
    type V = WebCmdView;

    open spec fn view(&self) -> WebCmdView {
        match *self {
            WebCmd::AcquireServer(a) => WebCmdView::AcquireServer(a@),
            WebCmd::ReleaseServer(r) => WebCmdView::ReleaseServer(r@),
        }
    }
}

} // verus!
