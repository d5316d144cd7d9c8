//! The event router: where each message goes next.
//!
//! The router keeps nothing. It takes what the listener, the resource
//! manager and the display registry send, and hands each message to the one
//! that has to act on it.

use vstd::prelude::*;
use crate::event::{
    AcquireServer, AcquireServerView, IpcEvent, IpcEventView, SetWebview, SetWebviewView,
    TokioEvent, TokioEventView, UiCmd, UiCmdView, UiEvent, UiEventView, WebCmd, WebCmdView,
    WebEvent, WebEventView,
};

verus! {

/// What reaches the router, by the queue it came on.
pub enum RouterInput {
    /// From the listener or the resource manager.
    Tokio(TokioEvent),
    /// From the display registry.
    Ui(UiEvent),
}

/// The view of [`RouterInput`]: every text in it as the sequence of its characters.
pub enum RouterInputView {
    Tokio(TokioEventView),
    Ui(UiEventView),
}

impl View for RouterInput {
    type V = RouterInputView;

    open spec fn view(&self) -> RouterInputView {
        match *self {
            RouterInput::Tokio(e) => RouterInputView::Tokio(e@),
            RouterInput::Ui(e) => RouterInputView::Ui(e@),
        }
    }
}

/// What leaves the router, by the queue it goes to.
pub enum RouterOutput {
    /// To the resource manager.
    Web(WebCmd),
    /// To the display registry.
    Ui(UiCmd),
}

/// The view of [`RouterOutput`]: every text in it as the sequence of its characters.
pub enum RouterOutputView {
    Web(WebCmdView),
    Ui(UiCmdView),
}

impl View for RouterOutput {
    type V = RouterOutputView;

    open spec fn view(&self) -> RouterOutputView {
        match *self {
            RouterOutput::Web(c) => RouterOutputView::Web(c@),
            RouterOutput::Ui(c) => RouterOutputView::Ui(c@),
        }
    }
}

/// Where a message goes, and as what:
/// a request for a local directory to the resource manager, as an acquire;
/// a request for a remote address to the display registry, as a command that
/// names no served directory;
/// the resource manager's answer to the display registry, as it is;
/// a display's notice to the resource manager, as a release.
pub open spec fn routed(input: RouterInputView) -> RouterOutputView {
    match input {
        RouterInputView::Tokio(TokioEventView::IpcEvent(IpcEventView::RequestServer(r))) => {
            RouterOutputView::Web(
                WebCmdView::AcquireServer(
                    AcquireServerView { path: r.path, connector: r.connector },
                ),
            )
        },
        RouterInputView::Tokio(TokioEventView::IpcEvent(IpcEventView::RequestWebview(r))) => {
            RouterOutputView::Ui(
                UiCmdView::SetWebview(
                    SetWebviewView { url: r.url, path: None, connector: r.connector },
                ),
            )
        },
        RouterInputView::Tokio(TokioEventView::WebEvent(WebEventView::SetWebview(s))) => {
            RouterOutputView::Ui(UiCmdView::SetWebview(s))
        },
        RouterInputView::Ui(UiEventView::ReleaseServer(r)) => {
            RouterOutputView::Web(WebCmdView::ReleaseServer(r))
        },
    }
}

/// Hands a message on.
pub fn route(input: RouterInput) -> (output: RouterOutput)
    ensures
        output@ == routed(input@),
{
    match input {
        RouterInput::Tokio(TokioEvent::IpcEvent(IpcEvent::RequestServer(request))) => {
            RouterOutput::Web(
                WebCmd::AcquireServer(
                    AcquireServer { path: request.path, connector: request.connector },
                ),
            )
        },
        RouterInput::Tokio(TokioEvent::IpcEvent(IpcEvent::RequestWebview(request))) => {
            RouterOutput::Ui(
                UiCmd::SetWebview(
                    SetWebview { url: request.url, path: None, connector: request.connector },
                ),
            )
        },
        RouterInput::Tokio(TokioEvent::WebEvent(WebEvent::SetWebview(show))) => {
            RouterOutput::Ui(UiCmd::SetWebview(show))
        },
        RouterInput::Ui(UiEvent::ReleaseServer(release)) => {
            RouterOutput::Web(WebCmd::ReleaseServer(release))
        },
    }
}

} // verus!
