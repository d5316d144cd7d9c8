//! The resource manager: which directories are served, at which address, and
//! for how many displays.
//!
//! A directory is served by at most one local server. The server is started
//! when the first display asks for the directory and stopped when the last
//! one has left. The table does the counting; binding a port and running
//! the server is left to the caller, who hands in what the table needs to
//! know and gets back what has to be done.
//!
//! This file says what the manager does, over a table seen as a map from
//! directories to servers. [`table`] holds the table itself, and [`laws`]
//! what follows for any run of commands.

use vstd::prelude::*;
use vstd::string::*;
use crate::event::{
    AcquireServer, AcquireServerView, SetWebviewView, TokioEvent, TokioEventView, WebCmd,
    WebCmdView, WebEventView,
};
use crate::text::{decimal, decimal_digits};

pub mod laws;
pub mod table;

pub use crate::webserver::table::ServerTable;

verus! {

/// The address under which a server bound to `port` on the loopback
/// interface is reached.
pub open spec fn server_url_text(port: u16) -> Seq<char> {
    "http://127.0.0.1:"@ + decimal_digits(port as nat) + "/"@
}

/// The address under which a server bound to `port` on the loopback
/// interface is reached.
pub fn server_url(port: u16) -> (url: String)
    ensures
        url@ == server_url_text(port),
{
    let mut url = String::from_str("http://127.0.0.1:");
    let digits = decimal(port as u64);
    url.append(digits.as_str());
    url.append("/");
    url
}

/// A running server as callers see it: its address, how many displays watch
/// it, and the handle that stops it.
pub struct InstanceView<H> {
    pub url: Seq<char>,
    pub watchers: nat,
    pub shutdown: H,
}

/// The table as callers see it: the served directories, each with its server.
pub type TableView<H> = Map<Seq<char>, InstanceView<H>>;

/// What the manager does in answer to a command.
pub enum WebReply<H> {
    /// The directory is served: this goes to the router.
    Send(TokioEvent),
    /// Nothing serves the directory yet. A server has to be started for the
    /// request, and reported with [`ServerTable::server_started`]; where that
    /// fails the request is dropped.
    Start(AcquireServer),
    /// A watcher has left and others remain.
    Kept,
    /// The last watcher has left. The server is no longer in the table, and
    /// is to be stopped through its handle.
    Stop(H),
    /// A release for a directory that nothing serves: nothing is done.
    Unserved,
}

/// The view of [`WebReply`]: every text in it as the sequence of its characters.
pub enum WebReplyView<H> {
    Send(TokioEventView),
    Start(AcquireServerView),
    Kept,
    Stop(H),
    Unserved,
}

impl<H> View for WebReply<H> {
    type V = WebReplyView<H>;

    open spec fn view(&self) -> WebReplyView<H> {
        match *self {
            WebReply::Send(e) => WebReplyView::Send(e@),
            WebReply::Start(a) => WebReplyView::Start(a@),
            WebReply::Kept => WebReplyView::Kept,
            WebReply::Stop(h) => WebReplyView::Stop(h),
            WebReply::Unserved => WebReplyView::Unserved,
        }
    }
}

/// The message that tells the display at `connector` to load `url`, served
/// from `path`.
pub open spec fn served(
    url: Seq<char>,
    path: Seq<char>,
    connector: Option<Seq<char>>,
) -> TokioEventView {
    TokioEventView::WebEvent(
        WebEventView::SetWebview(SetWebviewView { url, path: Some(path), connector }),
    )
}

/// Every server of the table has a watcher.
pub open spec fn all_watched<H>(table: TableView<H>) -> bool {
    forall|p: Seq<char>| table.contains_key(p) ==> (#[trigger] table[p]).watchers >= 1
}

/// The directory that a command is about.
pub open spec fn path_of(cmd: WebCmdView) -> Seq<char> {
    match cmd {
        WebCmdView::AcquireServer(a) => a.path,
        WebCmdView::ReleaseServer(r) => r.path,
    }
}

/// The table once `cmd` has been handled.
pub open spec fn table_after<H>(table: TableView<H>, cmd: WebCmdView) -> TableView<H> {
    match cmd {
        WebCmdView::AcquireServer(a) => {
            if table.contains_key(a.path) {
                table.insert(
                    a.path,
                    InstanceView {
                        url: table[a.path].url,
                        watchers: table[a.path].watchers + 1,
                        shutdown: table[a.path].shutdown,
                    },
                )
            } else {
                table
            }
        },
        WebCmdView::ReleaseServer(r) => {
            if table.contains_key(r.path) && table[r.path].watchers > 1 {
                table.insert(
                    r.path,
                    InstanceView {
                        url: table[r.path].url,
                        watchers: (table[r.path].watchers - 1) as nat,
                        shutdown: table[r.path].shutdown,
                    },
                )
            } else {
                table.remove(r.path)
            }
        },
    }
}

/// What is done in answer to `cmd`.
pub open spec fn reply_to<H>(table: TableView<H>, cmd: WebCmdView) -> WebReplyView<H> {
    match cmd {
        WebCmdView::AcquireServer(a) => {
            if table.contains_key(a.path) {
                WebReplyView::Send(served(table[a.path].url, a.path, a.connector))
            } else {
                WebReplyView::Start(a)
            }
        },
        WebCmdView::ReleaseServer(r) => {
            if !table.contains_key(r.path) {
                WebReplyView::Unserved
            } else if table[r.path].watchers > 1 {
                WebReplyView::Kept
            } else {
                WebReplyView::Stop(table[r.path].shutdown)
            }
        },
    }
}

/// The table once a server started for `path` on `port` has been entered.
pub open spec fn table_with<H>(
    table: TableView<H>,
    path: Seq<char>,
    port: u16,
    shutdown: H,
) -> TableView<H> {
    table.insert(path, InstanceView { url: server_url_text(port), watchers: 1, shutdown })
}

/// Handles one command of the manager's queue.
///
/// For an acquire, the count of the server must have room for one more
/// watcher; [`ServerTable::watchers`] tells the count.
pub fn web_manager<H>(table: &mut ServerTable<H>, cmd: WebCmd) -> (reply: WebReply<H>)
    requires
        cmd@ matches WebCmdView::AcquireServer(a) ==> (old(table)@.contains_key(a.path) ==> old(
            table,
        )@[a.path].watchers < usize::MAX),
    ensures
        final(table)@ == table_after(old(table)@, cmd@),
        reply@ == reply_to(old(table)@, cmd@),
        all_watched(final(table)@),
{
    match cmd {
        WebCmd::AcquireServer(acquire) => table.acquire(acquire),
        WebCmd::ReleaseServer(release) => table.release(release),
    }
}

} // verus!
