//! What holds of the manager whatever commands it gets.

use vstd::prelude::*;
use crate::event::{AcquireServerView, ReleaseServerView, WebCmdView};
use crate::text::{decimal_digits, lemma_decimal_injective};
use crate::webserver::{
    all_watched, path_of, reply_to, served, server_url_text, table_after, table_with,
    InstanceView, TableView, WebReplyView,
};

verus! {

/// A command changes nothing but the server of its own directory, and a
/// server stays in the table for as long as a display watches it: it is
/// taken out only by the release of its last watcher. Where every server
/// had a watcher before, every server has one after.
pub proof fn lemma_command_keeps_the_rest<H>(table: TableView<H>, cmd: WebCmdView)
    ensures
        forall|other: Seq<char>|
            other != path_of(cmd) ==> (table_after(table, cmd).contains_key(other)
                <==> table.contains_key(other)),
        forall|other: Seq<char>|
            other != path_of(cmd) && table.contains_key(other) ==> #[trigger] table_after(
                table,
                cmd,
            )[other] == table[other],
        table.contains_key(path_of(cmd)) && !table_after(table, cmd).contains_key(path_of(cmd))
            ==> cmd is ReleaseServer && table[path_of(cmd)].watchers <= 1,
        all_watched(table) ==> all_watched(table_after(table, cmd)),
{
}

/// The table once one request for `path` by each of `requesters`, in their
/// order, has been handled.
pub open spec fn acquired<H>(
    table: TableView<H>,
    path: Seq<char>,
    requesters: Seq<Option<Seq<char>>>,
) -> TableView<H>
    decreases requesters.len(),
{
    if requesters.len() == 0 {
        table
    } else {
        table_after(
            acquired(table, path, requesters.drop_last()),
            WebCmdView::AcquireServer(AcquireServerView { path, connector: requesters.last() }),
        )
    }
}

/// The table once `times` releases of `path` have been handled.
pub open spec fn released<H>(table: TableView<H>, path: Seq<char>, times: nat) -> TableView<H>
    decreases times,
{
    if times == 0 {
        table
    } else {
        table_after(
            released(table, path, (times - 1) as nat),
            WebCmdView::ReleaseServer(ReleaseServerView { path }),
        )
    }
}

proof fn lemma_acquired<H>(table: TableView<H>, path: Seq<char>, requesters: Seq<Option<Seq<char>>>)
    requires
        table.contains_key(path),
    ensures
        acquired(table, path, requesters) == table.insert(
            path,
            InstanceView {
                url: table[path].url,
                watchers: table[path].watchers + requesters.len(),
                shutdown: table[path].shutdown,
            },
        ),
    decreases requesters.len(),
{
    if requesters.len() == 0 {
        assert(table.insert(path, table[path]) =~= table);
    } else {
        lemma_acquired(table, path, requesters.drop_last());
        assert(acquired(table, path, requesters) =~= table.insert(
            path,
            InstanceView {
                url: table[path].url,
                watchers: table[path].watchers + requesters.len(),
                shutdown: table[path].shutdown,
            },
        ));
    }
}

proof fn lemma_released<H>(table: TableView<H>, path: Seq<char>, times: nat)
    requires
        table.contains_key(path),
        times < table[path].watchers,
    ensures
        released(table, path, times) == table.insert(
            path,
            InstanceView {
                url: table[path].url,
                watchers: (table[path].watchers - times) as nat,
                shutdown: table[path].shutdown,
            },
        ),
    decreases times,
{
    if times == 0 {
        assert(table.insert(path, table[path]) =~= table);
    } else {
        lemma_released(table, path, (times - 1) as nat);
        assert(released(table, path, times) =~= table.insert(
            path,
            InstanceView {
                url: table[path].url,
                watchers: (table[path].watchers - times) as nat,
                shutdown: table[path].shutdown,
            },
        ));
    }
}

/// Requests for one directory share one server. Of any number of requests
/// for a directory that nothing serves yet, handled with no release in
/// between, only the first asks for a server to be started. Once that server
/// is entered every later request is answered with its address, and in the
/// end the table holds this one server for the directory, watched once for
/// each request.
pub proof fn lemma_acquires_share_one_server<H>(
    table: TableView<H>,
    path: Seq<char>,
    port: u16,
    shutdown: H,
    requesters: Seq<Option<Seq<char>>>,
)
    requires
        !table.contains_key(path),
        requesters.len() >= 1,
    ensures
        ({
            let first = AcquireServerView { path, connector: requesters[0] };
            let started = table_with(table, path, port, shutdown);
            let later = requesters.subrange(1, requesters.len() as int);
            &&& reply_to(table, WebCmdView::AcquireServer(first)) == WebReplyView::<H>::Start(first)
            &&& table_after(table, WebCmdView::AcquireServer(first)) == table
            &&& forall|k: int|
                0 <= k < later.len() ==> reply_to(
                    #[trigger] acquired(started, path, later.take(k)),
                    WebCmdView::AcquireServer(AcquireServerView { path, connector: later[k] }),
                ) == WebReplyView::<H>::Send(served(server_url_text(port), path, later[k]))
            &&& acquired(started, path, later) == table.insert(
                path,
                InstanceView { url: server_url_text(port), watchers: requesters.len(), shutdown },
            )
        }),
{
    let started = table_with(table, path, port, shutdown);
    let later = requesters.subrange(1, requesters.len() as int);
    assert forall|k: int| 0 <= k < later.len() implies reply_to(
        #[trigger] acquired(started, path, later.take(k)),
        WebCmdView::AcquireServer(AcquireServerView { path, connector: later[k] }),
    ) == WebReplyView::<H>::Send(served(server_url_text(port), path, later[k])) by {
        lemma_acquired(started, path, later.take(k));
    }
    lemma_acquired(started, path, later);
    assert(acquired(started, path, later) =~= table.insert(
        path,
        InstanceView { url: server_url_text(port), watchers: requesters.len(), shutdown },
    ));
}

/// As many releases as there are watchers stop the server, once. Every
/// release but the last leaves the server running, the last takes it out of
/// the table and hands out its handle, and one release more finds nothing
/// and changes nothing.
pub proof fn lemma_releases_stop_once<H>(table: TableView<H>, path: Seq<char>)
    requires
        table.contains_key(path),
        table[path].watchers >= 1,
    ensures
        ({
            let n = table[path].watchers;
            let release = WebCmdView::ReleaseServer(ReleaseServerView { path });
            &&& forall|k: nat|
                k + 1 < n ==> reply_to(#[trigger] released(table, path, k), release)
                    == WebReplyView::<H>::Kept
            &&& reply_to(released(table, path, (n - 1) as nat), release) == WebReplyView::Stop(
                table[path].shutdown,
            )
            &&& released(table, path, n) == table.remove(path)
            &&& reply_to(released(table, path, n), release) == WebReplyView::<H>::Unserved
            &&& table_after(released(table, path, n), release) == released(table, path, n)
        }),
{
    let n = table[path].watchers;
    let release = WebCmdView::ReleaseServer(ReleaseServerView { path });
    assert forall|k: nat| k + 1 < n implies reply_to(#[trigger] released(table, path, k), release)
        == WebReplyView::<H>::Kept by {
        lemma_released(table, path, k);
    }
    lemma_released(table, path, (n - 1) as nat);
    assert(released(table, path, n) =~= table.remove(path));
    assert(table.remove(path).remove(path) =~= table.remove(path));
}

/// Requests and releases balance. Where a directory that nothing serves is
/// asked for any number of times, and then released as often, every release
/// but the last leaves the server running; the last stops it, through the
/// handle that was entered with it, and leaves the table as it was before
/// the first request. One release more finds nothing and changes nothing.
pub proof fn lemma_requests_and_releases_balance<H>(
    table: TableView<H>,
    path: Seq<char>,
    port: u16,
    shutdown: H,
    requesters: Seq<Option<Seq<char>>>,
)
    requires
        !table.contains_key(path),
        requesters.len() >= 1,
    ensures
        ({
            let n = requesters.len();
            let later = requesters.subrange(1, n as int);
            let served = acquired(table_with(table, path, port, shutdown), path, later);
            let release = WebCmdView::ReleaseServer(ReleaseServerView { path });
            &&& forall|k: nat|
                k + 1 < n ==> reply_to(#[trigger] released(served, path, k), release)
                    == WebReplyView::<H>::Kept
            &&& reply_to(released(served, path, (n - 1) as nat), release) == WebReplyView::Stop(
                shutdown,
            )
            &&& released(served, path, n) == table
            &&& reply_to(released(served, path, n), release) == WebReplyView::<H>::Unserved
            &&& table_after(released(served, path, n), release) == table
        }),
{
    let n = requesters.len();
    let later = requesters.subrange(1, n as int);
    let served = acquired(table_with(table, path, port, shutdown), path, later);
    lemma_acquires_share_one_server(table, path, port, shutdown, requesters);
    lemma_releases_stop_once(served, path);
    assert(served.remove(path) =~= table);
}

/// Servers bound to different ports have different addresses.
pub proof fn lemma_ports_tell_urls_apart(a: u16, b: u16)
    requires
        a != b,
    ensures
        server_url_text(a) != server_url_text(b),
{
    if server_url_text(a) == server_url_text(b) {
        let head = "http://127.0.0.1:"@;
        let tail = "/"@;
        let da = decimal_digits(a as nat);
        let db = decimal_digits(b as nat);
        let ua = server_url_text(a);
        let ub = server_url_text(b);
        assert(ua.len() == head.len() + da.len() + tail.len());
        assert(ub.len() == head.len() + db.len() + tail.len());
        assert(ua.subrange(head.len() as int, (head.len() + da.len()) as int) =~= da);
        assert(ub.subrange(head.len() as int, (head.len() + db.len()) as int) =~= db);
        lemma_decimal_injective(a as nat, b as nat);
    }
}

/// Two directories are served by two servers at two addresses. Where
/// requests for two different directories that nothing serves yet are
/// handled, each asks for a server of its own, and once both servers are
/// entered, on the different ports that they are bound to, the table holds
/// one for each directory, and their addresses differ.
pub proof fn lemma_two_paths_two_servers<H>(
    table: TableView<H>,
    one: AcquireServerView,
    other: AcquireServerView,
    one_port: u16,
    other_port: u16,
    one_shutdown: H,
    other_shutdown: H,
)
    requires
        one.path != other.path,
        one_port != other_port,
        !table.contains_key(one.path),
        !table.contains_key(other.path),
    ensures
        ({
            let first = table_with(table, one.path, one_port, one_shutdown);
            let both = table_with(first, other.path, other_port, other_shutdown);
            &&& reply_to(table, WebCmdView::AcquireServer(one)) == WebReplyView::<H>::Start(one)
            &&& reply_to(first, WebCmdView::AcquireServer(other)) == WebReplyView::<H>::Start(other)
            &&& both.contains_key(one.path)
            &&& both.contains_key(other.path)
            &&& both[one.path].url != both[other.path].url
            &&& both.remove(one.path).remove(other.path) == table
        }),
{
    lemma_ports_tell_urls_apart(one_port, other_port);
    let first = table_with(table, one.path, one_port, one_shutdown);
    let both = table_with(first, other.path, other_port, other_shutdown);
    assert(both.remove(one.path).remove(other.path) =~= table);
}

} // verus!
