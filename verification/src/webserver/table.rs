//! The table of the served directories.
//!
//! The table keeps its servers in a list, one row for each served
//! directory, and is seen from outside as a map from directories to
//! servers. The rows are few: a served directory is found by going through
//! them.

use vstd::prelude::*;
use vstd::string::*;
use crate::event::{
    AcquireServer, ReleaseServer, SetWebview, TokioEvent, WebCmdView, WebEvent,
};
use crate::webserver::{
    all_watched, reply_to, served, server_url, server_url_text, table_after, table_with,
    InstanceView, TableView, WebReply,
};

verus! {

/// A row of the table: a served directory with its server.
struct Instance<H> {
    path: String,
    url: String,
    watchers: usize,
    shutdown: H,
}

impl<H> Instance<H> {
    /// The server of the row as callers see it.
    spec fn model(self) -> InstanceView<H> {
        InstanceView { url: self.url@, watchers: self.watchers as nat, shutdown: self.shutdown }
    }
}

/// No directory occurs twice, and every server has a watcher.
spec fn rows_wf<H>(rows: Seq<Instance<H>>) -> bool {
    &&& forall|i: int| 0 <= i < rows.len() ==> (#[trigger] rows[i]).watchers >= 1
    &&& forall|i: int, j: int|
        0 <= i < j < rows.len() ==> (#[trigger] rows[i]).path@ != (#[trigger] rows[j]).path@
}

/// Whether a row serves `path`.
spec fn has_row<H>(rows: Seq<Instance<H>>, path: Seq<char>) -> bool {
    exists|i: int| 0 <= i < rows.len() && (#[trigger] rows[i]).path@ == path
}

/// The place of the row that serves `path`.
spec fn row_of<H>(rows: Seq<Instance<H>>, path: Seq<char>) -> int {
    choose|i: int| 0 <= i < rows.len() && (#[trigger] rows[i]).path@ == path
}

/// The rows as a map from directories to servers.
spec fn rows_view<H>(rows: Seq<Instance<H>>) -> TableView<H> {
    Map::new(|p: Seq<char>| has_row(rows, p), |p: Seq<char>| rows[row_of(rows, p)].model())
}

/// The row at a place is the row of its directory.
proof fn lemma_row<H>(rows: Seq<Instance<H>>, i: int)
    requires
        rows_wf(rows),
        0 <= i < rows.len(),
    ensures
        has_row(rows, rows[i].path@),
        row_of(rows, rows[i].path@) == i,
        rows_view(rows).contains_key(rows[i].path@),
        rows_view(rows)[rows[i].path@] == rows[i].model(),
{
    let p = rows[i].path@;
    let j = row_of(rows, p);
    assert(0 <= j < rows.len() && rows[j].path@ == p);
    if j < i {
        assert(rows[j].path@ != rows[i].path@);
    } else if i < j {
        assert(rows[i].path@ != rows[j].path@);
    }
}

/// A new row for a directory that is not served yet enters the map.
proof fn lemma_push<H>(rows: Seq<Instance<H>>, row: Instance<H>)
    requires
        rows_wf(rows),
        !has_row(rows, row.path@),
        row.watchers >= 1,
    ensures
        rows_wf(rows.push(row)),
        rows_view(rows.push(row)) == rows_view(rows).insert(row.path@, row.model()),
{
    let next = rows.push(row);
    assert forall|i: int, j: int| 0 <= i < j < next.len() implies (#[trigger] next[i]).path@ != (
    #[trigger] next[j]).path@ by {
        if j == rows.len() {
            assert(rows[i].path@ != row.path@);
        } else {
            assert(rows[i].path@ != rows[j].path@);
        }
    }
    assert(rows_wf(next));
    assert forall|p: Seq<char>| has_row(next, p) <==> (has_row(rows, p) || p == row.path@) by {
        if has_row(next, p) {
            let i = row_of(next, p);
            if i < rows.len() {
                assert(rows[i].path@ == p);
            }
        }
        if has_row(rows, p) {
            let i = row_of(rows, p);
            assert(next[i].path@ == p);
        }
        if p == row.path@ {
            assert(next[rows.len() as int].path@ == p);
        }
    }
    assert forall|p: Seq<char>| has_row(next, p) implies #[trigger] rows_view(next)[p] == rows_view(
        rows,
    ).insert(row.path@, row.model())[p] by {
        if p == row.path@ {
            lemma_row(next, rows.len() as int);
        } else {
            let i = row_of(rows, p);
            lemma_row(rows, i);
            assert(next[i] == rows[i]);
            lemma_row(next, i);
        }
    }
    assert(rows_view(next) =~= rows_view(rows).insert(row.path@, row.model()));
}

/// Taking a row out takes its directory out of the map.
proof fn lemma_remove<H>(rows: Seq<Instance<H>>, i: int)
    requires
        rows_wf(rows),
        0 <= i < rows.len(),
    ensures
        rows_wf(rows.remove(i)),
        !has_row(rows.remove(i), rows[i].path@),
        rows_view(rows.remove(i)) == rows_view(rows).remove(rows[i].path@),
{
    let next = rows.remove(i);
    let gone = rows[i].path@;
    assert forall|a: int, b: int| 0 <= a < b < next.len() implies (#[trigger] next[a]).path@ != (
    #[trigger] next[b]).path@ by {
        let a0 = if a < i { a } else { a + 1 };
        let b0 = if b < i { b } else { b + 1 };
        assert(next[a] == rows[a0]);
        assert(next[b] == rows[b0]);
        assert(rows[a0].path@ != rows[b0].path@);
    }
    assert forall|a: int| 0 <= a < next.len() implies (#[trigger] next[a]).watchers >= 1 by {
        let a0 = if a < i { a } else { a + 1 };
        assert(next[a] == rows[a0]);
    }
    assert(rows_wf(next));
    assert forall|p: Seq<char>| has_row(next, p) <==> (has_row(rows, p) && p != gone) by {
        if has_row(next, p) {
            let a = row_of(next, p);
            let a0 = if a < i { a } else { a + 1 };
            assert(next[a] == rows[a0]);
            assert(rows[a0].path@ == p);
            if a0 < i {
                assert(rows[a0].path@ != rows[i].path@);
            } else {
                assert(rows[i].path@ != rows[a0].path@);
            }
        }
        if has_row(rows, p) && p != gone {
            let a0 = row_of(rows, p);
            let a = if a0 < i { a0 } else { a0 - 1 };
            assert(next[a] == rows[a0]);
            assert(next[a].path@ == p);
        }
    }
    assert forall|p: Seq<char>| has_row(next, p) implies #[trigger] rows_view(next)[p] == rows_view(
        rows,
    ).remove(gone)[p] by {
        let a = row_of(next, p);
        let a0 = if a < i { a } else { a + 1 };
        assert(next[a] == rows[a0]);
        lemma_row(next, a);
        lemma_row(rows, a0);
    }
    assert(rows_view(next) =~= rows_view(rows).remove(gone));
}

/// Every server of well-formed rows has a watcher.
proof fn lemma_all_watched<H>(rows: Seq<Instance<H>>)
    requires
        rows_wf(rows),
    ensures
        all_watched(rows_view(rows)),
{
    assert forall|p: Seq<char>| rows_view(rows).contains_key(p) implies (#[trigger] rows_view(
        rows,
    )[p]).watchers >= 1 by {
        let i = row_of(rows, p);
        lemma_row(rows, i);
    }
}

/// There are as many served directories as rows.
proof fn lemma_count<H>(rows: Seq<Instance<H>>)
    requires
        rows_wf(rows),
    ensures
        rows_view(rows).dom().finite(),
        rows_view(rows).dom().len() == rows.len(),
    decreases rows.len(),
{
    if rows.len() == 0 {
        assert(rows_view(rows).dom() =~= Set::<Seq<char>>::empty());
    } else {
        let front = rows.drop_last();
        let last = rows.last();
        assert(rows_wf(front)) by {
            assert forall|i: int| 0 <= i < front.len() implies (#[trigger] front[i]).watchers
                >= 1 by {
                assert(front[i] == rows[i]);
            }
            assert forall|i: int, j: int| 0 <= i < j < front.len() implies (
            #[trigger] front[i]).path@ != (#[trigger] front[j]).path@ by {
                assert(front[i] == rows[i]);
                assert(front[j] == rows[j]);
            }
        }
        assert(!has_row(front, last.path@)) by {
            if has_row(front, last.path@) {
                let i = row_of(front, last.path@);
                assert(front[i] == rows[i]);
                assert(rows[i].path@ != rows[rows.len() - 1].path@);
            }
        }
        lemma_count(front);
        lemma_push(front, last);
        assert(front.push(last) =~= rows);
        assert(rows_view(rows).dom() =~= rows_view(front).dom().insert(last.path@));
    }
}

/// The place of the row that serves `path`, if one does.
fn find<H>(rows: &Vec<Instance<H>>, path: &str) -> (found: Option<usize>)
    requires
        rows_wf(rows@),
    ensures
        match found {
            Some(i) => i < rows.len() && rows@[i as int].path@ == path@,
            None => !has_row(rows@, path@),
        },
{
    let mut i: usize = 0;
    while i < rows.len()
        invariant
            i <= rows.len(),
            forall|j: int| 0 <= j < i ==> (#[trigger] rows@[j]).path@ != path@,
        decreases rows.len() - i,
    {
        if *rows[i].path.as_str() == *path {
            return Some(i);
        }
        i += 1;
    }
    None
}

/// The served directories. `H` is whatever stops a server; the table keeps
/// it and gives it back when the last watcher has left.
pub struct ServerTable<H> {
    rows: Vec<Instance<H>>,
}

impl<H> View for ServerTable<H> {
    type V = TableView<H>;

    closed spec fn view(&self) -> TableView<H> {
        rows_view(self.rows@)
    }
}

impl<H> ServerTable<H> {
    #[verifier::type_invariant]
    spec fn wf(self) -> bool {
        rows_wf(self.rows@)
    }

    /// A table that serves nothing.
    pub fn new() -> (table: Self)
        ensures
            table@ == Map::<Seq<char>, InstanceView<H>>::empty(),
    {
        let table = ServerTable { rows: Vec::new() };
        assert(table@ =~= Map::<Seq<char>, InstanceView<H>>::empty());
        table
    }

    /// How many directories are served.
    pub fn len(&self) -> (n: usize)
        ensures
            self@.dom().finite(),
            n == self@.dom().len(),
    {
        proof {
            use_type_invariant(self);
            lemma_count(self.rows@);
        }
        self.rows.len()
    }

    /// Whether `path` is served.
    pub fn contains(&self, path: &str) -> (served: bool)
        ensures
            served == self@.contains_key(path@),
    {
        proof {
            use_type_invariant(self);
        }
        find(&self.rows, path).is_some()
    }

    /// How many displays watch the server of `path`.
    pub fn watchers(&self, path: &str) -> (count: Option<usize>)
        ensures
            match count {
                Some(n) => self@.contains_key(path@) && self@[path@].watchers == n && n >= 1,
                None => !self@.contains_key(path@),
            },
    {
        proof {
            use_type_invariant(self);
        }
        match find(&self.rows, path) {
            Some(i) => {
                proof {
                    lemma_row(self.rows@, i as int);
                }
                Some(self.rows[i].watchers)
            },
            None => None,
        }
    }

    /// The address of the server of `path`.
    pub fn url(&self, path: &str) -> (url: Option<String>)
        ensures
            match url {
                Some(u) => self@.contains_key(path@) && self@[path@].url == u@,
                None => !self@.contains_key(path@),
            },
    {
        proof {
            use_type_invariant(self);
        }
        match find(&self.rows, path) {
            Some(i) => {
                proof {
                    lemma_row(self.rows@, i as int);
                }
                Some(self.rows[i].url.clone())
            },
            None => None,
        }
    }

    /// One more watcher for the server of the request's directory, with the
    /// message that shows it; or the request back, where a server has to be
    /// started first.
    ///
    /// The count of the server must have room for one more watcher;
    /// [`ServerTable::watchers`] tells the count.
    pub fn acquire(&mut self, acquire: AcquireServer) -> (reply: WebReply<H>)
        requires
            old(self)@.contains_key(acquire.path@) ==> old(self)@[acquire.path@].watchers
                < usize::MAX,
        ensures
            final(self)@ == table_after(old(self)@, WebCmdView::AcquireServer(acquire@)),
            reply@ == reply_to(old(self)@, WebCmdView::AcquireServer(acquire@)),
            all_watched(final(self)@),
    {
        proof {
            use_type_invariant(&*self);
        }
        let mut rows: Vec<Instance<H>> = Vec::new();
        std::mem::swap(&mut rows, &mut self.rows);
        let ghost before = rows@;
        let reply = match find(&rows, acquire.path.as_str()) {
            Some(i) => {
                proof {
                    lemma_row(before, i as int);
                    lemma_remove(before, i as int);
                }
                let row = rows.remove(i);
                let url = row.url.clone();
                let more = Instance {
                    path: row.path,
                    url: row.url,
                    watchers: row.watchers + 1,
                    shutdown: row.shutdown,
                };
                proof {
                    lemma_push(rows@, more);
                    assert(rows_view(rows@.push(more)) =~= table_after(
                        rows_view(before),
                        WebCmdView::AcquireServer(acquire@),
                    ));
                }
                rows.push(more);
                let path = acquire.path.clone();
                WebReply::Send(
                    TokioEvent::WebEvent(
                        WebEvent::SetWebview(
                            SetWebview { url, path: Some(path), connector: acquire.connector },
                        ),
                    ),
                )
            },
            None => WebReply::Start(acquire),
        };
        proof {
            lemma_all_watched(rows@);
        }
        self.rows = rows;
        reply
    }

    /// Enters the server that was started for `acquire` on `port`, with its
    /// first watcher, and gives the message that shows it.
    ///
    /// The directory must not be served yet: a server is started only for a
    /// request that the table has handed back, and entered before the next
    /// command is handled.
    pub fn server_started(&mut self, acquire: AcquireServer, port: u16, shutdown: H) -> (event:
        TokioEvent)
        requires
            !old(self)@.contains_key(acquire.path@),
        ensures
            final(self)@ == table_with(old(self)@, acquire.path@, port, shutdown),
            event@ == served(server_url_text(port), acquire.path@, acquire@.connector),
            all_watched(final(self)@),
    {
        proof {
            use_type_invariant(&*self);
        }
        let mut rows: Vec<Instance<H>> = Vec::new();
        std::mem::swap(&mut rows, &mut self.rows);
        let url = server_url(port);
        let row = Instance { path: acquire.path.clone(), url: url.clone(), watchers: 1, shutdown };
        proof {
            lemma_push(rows@, row);
            lemma_all_watched(rows@.push(row));
        }
        rows.push(row);
        self.rows = rows;
        TokioEvent::WebEvent(
            WebEvent::SetWebview(
                SetWebview { url, path: Some(acquire.path), connector: acquire.connector },
            ),
        )
    }

    /// One watcher less for the server of the request's directory. The last
    /// one takes the server out of the table.
    pub fn release(&mut self, release: ReleaseServer) -> (reply: WebReply<H>)
        ensures
            final(self)@ == table_after(old(self)@, WebCmdView::ReleaseServer(release@)),
            reply@ == reply_to(old(self)@, WebCmdView::ReleaseServer(release@)),
            all_watched(final(self)@),
    {
        proof {
            use_type_invariant(&*self);
        }
        let mut rows: Vec<Instance<H>> = Vec::new();
        std::mem::swap(&mut rows, &mut self.rows);
        let ghost before = rows@;
        let reply = match find(&rows, release.path.as_str()) {
            Some(i) => {
                proof {
                    lemma_row(before, i as int);
                    lemma_remove(before, i as int);
                }
                let row = rows.remove(i);
                if row.watchers > 1 {
                    let fewer = Instance {
                        path: row.path,
                        url: row.url,
                        watchers: row.watchers - 1,
                        shutdown: row.shutdown,
                    };
                    proof {
                        lemma_push(rows@, fewer);
                        assert(rows_view(rows@.push(fewer)) =~= table_after(
                            rows_view(before),
                            WebCmdView::ReleaseServer(release@),
                        ));
                    }
                    rows.push(fewer);
                    WebReply::Kept
                } else {
                    WebReply::Stop(row.shutdown)
                }
            },
            None => {
                assert(rows_view(before).remove(release.path@) =~= rows_view(before));
                WebReply::Unserved
            },
        };
        proof {
            lemma_all_watched(rows@);
        }
        self.rows = rows;
        reply
    }
}

} // verus!
