//! The display registry: one display for each monitor, and what each of
//! them shows.
//!
//! The registry learns what to show from commands and answers with what has
//! to be done: which displays load the address, and which served directories
//! are no longer watched by a display. It never counts watchers itself.

use vstd::prelude::*;
use crate::event::{
    ReleaseServer, ReleaseServerView, SetWebview, SetWebviewView, UiCmd, UiCmdView, UiEvent,
    UiEventView,
};
use crate::text::{clone_option, same_option};

verus! {

/// The display of one monitor. `connector` names the monitor, and
/// `wallpaper_path` is the served directory that the display shows, if it
/// shows one.
pub struct DisplayInstance {
    pub connector: String,
    pub wallpaper_path: Option<String>,
}

/// The view of [`DisplayInstance`]: every text in it as the sequence of its characters.
pub struct DisplayInstanceView {
    pub connector: Seq<char>,
    pub wallpaper_path: Option<Seq<char>>,
}

impl View for DisplayInstance {
    type V = DisplayInstanceView;

    open spec fn view(&self) -> DisplayInstanceView {
        DisplayInstanceView {
            connector: self.connector@,
            wallpaper_path: self.wallpaper_path.deep_view(),
        }
    }
}

/// What the registry asks for.
pub enum DisplayAction {
    /// This goes to the router: a display has stopped watching a directory.
    Notify(UiEvent),
    /// The display at this place in the registry loads the address.
    Load { instance: usize, url: String },
}

/// The view of [`DisplayAction`]: every text in it as the sequence of its characters.
pub enum DisplayActionView {
    Notify(UiEventView),
    Load { instance: int, url: Seq<char> },
}

impl View for DisplayAction {
    type V = DisplayActionView;

    open spec fn view(&self) -> DisplayActionView {
        match *self {
            DisplayAction::Notify(e) => DisplayActionView::Notify(e@),
            DisplayAction::Load { instance, url } => DisplayActionView::Load {
                instance: instance as int,
                url: url@,
            },
        }
    }
}

/// The views of `actions`, in their order.
pub open spec fn action_views(actions: Seq<DisplayAction>) -> Seq<DisplayActionView> {
    actions.map_values(|a: DisplayAction| a@)
}

/// Whether a command is meant for a display: one without a connector is
/// meant for all of them, one with a connector for the displays of that
/// name.
pub open spec fn addressed(display: DisplayInstanceView, show: SetWebviewView) -> bool {
    show.connector is None || show.connector == Some(display.connector)
}

/// The served directory that a display stops watching when it obeys a
/// command: the one it shows, unless the command is served from the same.
pub open spec fn left_by(display: DisplayInstanceView, show: SetWebviewView) -> Option<Seq<char>> {
    if display.wallpaper_path != show.path {
        display.wallpaper_path
    } else {
        None
    }
}

/// The message that says that a display has stopped watching `path`.
pub open spec fn notice(path: Seq<char>) -> DisplayActionView {
    DisplayActionView::Notify(UiEventView::ReleaseServer(ReleaseServerView { path }))
}

/// What the display at place `index` asks for when the registry gets a
/// command: nothing where the command is not meant for it; else a notice for
/// the directory it leaves, if it leaves one, and then the load.
pub open spec fn actions_of(index: int, display: DisplayInstanceView, show: SetWebviewView) -> Seq<
    DisplayActionView,
> {
    if !addressed(display, show) {
        Seq::empty()
    } else {
        let load = DisplayActionView::Load { instance: index, url: show.url };
        match left_by(display, show) {
            Some(path) => seq![notice(path), load],
            None => seq![load],
        }
    }
}

/// A display once the registry has got a command.
pub open spec fn display_after(
    display: DisplayInstanceView,
    show: SetWebviewView,
) -> DisplayInstanceView {
    if addressed(display, show) {
        DisplayInstanceView { connector: display.connector, wallpaper_path: show.path }
    } else {
        display
    }
}

/// The displays once the registry has got a command.
pub open spec fn displays_after(
    displays: Seq<DisplayInstanceView>,
    show: SetWebviewView,
) -> Seq<DisplayInstanceView> {
    displays.map_values(|d: DisplayInstanceView| display_after(d, show))
}

/// What a command tells the displays to show.
pub open spec fn shown(cmd: UiCmdView) -> SetWebviewView {
    match cmd {
        UiCmdView::SetWebview(show) => show,
    }
}

/// What the first `count` displays ask for, in their order.
pub open spec fn actions_upto(
    displays: Seq<DisplayInstanceView>,
    show: SetWebviewView,
    count: int,
) -> Seq<DisplayActionView>
    decreases count,
{
    if count <= 0 {
        Seq::empty()
    } else {
        actions_upto(displays, show, count - 1) + actions_of(
            count - 1,
            displays[count - 1],
            show,
        )
    }
}

/// The served directories that `actions` give notice of, in their order.
pub open spec fn noticed(actions: Seq<DisplayActionView>) -> Seq<Seq<char>>
    decreases actions.len(),
{
    if actions.len() == 0 {
        Seq::empty()
    } else {
        match actions.last() {
            DisplayActionView::Notify(UiEventView::ReleaseServer(r)) => noticed(
                actions.drop_last(),
            ).push(r.path),
            DisplayActionView::Load { .. } => noticed(actions.drop_last()),
        }
    }
}

/// A display that goes from one served directory to another gives notice of
/// the one it leaves, once, and of nothing else: not of the one it goes to,
/// not twice, and not never. It then loads the new address and shows the
/// new directory.
pub proof fn lemma_switch_gives_one_notice(
    index: int,
    display: DisplayInstanceView,
    show: SetWebviewView,
    from: Seq<char>,
    to: Seq<char>,
)
    requires
        addressed(display, show),
        display.wallpaper_path == Some(from),
        show.path == Some(to),
        from != to,
    ensures
        actions_of(index, display, show) == seq![
            notice(from),
            DisplayActionView::Load { instance: index, url: show.url },
        ],
        noticed(actions_of(index, display, show)) == seq![from],
        display_after(display, show).wallpaper_path == Some(to),
{
    lemma_notice_then_load(index, display, show);
}

/// A display that is told to show what it shows already, or that showed no
/// served directory, gives no notice.
pub proof fn lemma_no_notice_without_leaving(
    index: int,
    display: DisplayInstanceView,
    show: SetWebviewView,
)
    requires
        display.wallpaper_path is None || display.wallpaper_path == show.path || !addressed(
            display,
            show,
        ),
    ensures
        noticed(actions_of(index, display, show)) == Seq::<Seq<char>>::empty(),
{
    let actions = actions_of(index, display, show);
    if addressed(display, show) {
        assert(actions =~= seq![DisplayActionView::Load { instance: index, url: show.url }]);
        assert(actions.drop_last() =~= Seq::<DisplayActionView>::empty());
        assert(noticed(actions.drop_last()) =~= Seq::<Seq<char>>::empty());
    }
}

/// The served directories that the first `count` displays stop watching
/// when the registry gets a command, display by display.
pub open spec fn left_upto(
    displays: Seq<DisplayInstanceView>,
    show: SetWebviewView,
    count: int,
) -> Seq<Seq<char>>
    decreases count,
{
    if count <= 0 {
        Seq::empty()
    } else {
        let before = left_upto(displays, show, count - 1);
        let display = displays[count - 1];
        if addressed(display, show) && left_by(display, show) is Some {
            before.push(left_by(display, show).unwrap())
        } else {
            before
        }
    }
}

proof fn lemma_noticed_add(first: Seq<DisplayActionView>, second: Seq<DisplayActionView>)
    ensures
        noticed(first + second) == noticed(first) + noticed(second),
    decreases second.len(),
{
    if second.len() == 0 {
        assert(first + second =~= first);
        assert(noticed(second) =~= Seq::<Seq<char>>::empty());
        assert(noticed(first) + noticed(second) =~= noticed(first));
    } else {
        let all = first + second;
        assert(all.drop_last() =~= first + second.drop_last());
        assert(all.last() == second.last());
        lemma_noticed_add(first, second.drop_last());
        match second.last() {
            DisplayActionView::Notify(UiEventView::ReleaseServer(r)) => {
                assert(noticed(all) =~= noticed(first) + noticed(second));
            },
            DisplayActionView::Load { .. } => {},
        }
    }
}

/// What a command makes the registry give notice of is what its displays
/// leave: one notice for each display that stops watching a directory, for
/// that directory, in the order of the displays, and no other.
pub proof fn lemma_notices_are_what_displays_leave(
    displays: Seq<DisplayInstanceView>,
    show: SetWebviewView,
    count: int,
)
    requires
        0 <= count <= displays.len(),
    ensures
        noticed(actions_upto(displays, show, count)) == left_upto(displays, show, count),
    decreases count,
{
    if count > 0 {
        let display = displays[count - 1];
        let before = actions_upto(displays, show, count - 1);
        let here = actions_of(count - 1, display, show);
        lemma_notices_are_what_displays_leave(displays, show, count - 1);
        lemma_noticed_add(before, here);
        if addressed(display, show) && left_by(display, show) is Some {
            lemma_notice_then_load(count - 1, display, show);
            assert(noticed(before) + seq![left_by(display, show).unwrap()] =~= noticed(before).push(
                left_by(display, show).unwrap(),
            ));
        } else {
            lemma_no_notice_without_leaving(count - 1, display, show);
            assert(noticed(before) + Seq::<Seq<char>>::empty() =~= noticed(before));
        }
    } else {
        assert(noticed(actions_upto(displays, show, count)) =~= Seq::<Seq<char>>::empty());
    }
}

proof fn lemma_notice_then_load(index: int, display: DisplayInstanceView, show: SetWebviewView)
    requires
        addressed(display, show),
        left_by(display, show) is Some,
    ensures
        noticed(actions_of(index, display, show)) == seq![left_by(display, show).unwrap()],
{
    let from = left_by(display, show).unwrap();
    let actions = actions_of(index, display, show);
    assert(actions =~= seq![
        notice(from),
        DisplayActionView::Load { instance: index, url: show.url },
    ]);
    assert(actions.drop_last() =~= seq![notice(from)]);
    assert(actions.drop_last().drop_last() =~= Seq::<DisplayActionView>::empty());
    assert(noticed(actions.drop_last().drop_last()) =~= Seq::<Seq<char>>::empty());
    assert(noticed(actions.drop_last()) =~= seq![from]);
    assert(noticed(actions) =~= seq![from]);
}

/// A command that names a connector which no display has is dropped: no
/// display changes, and nothing is asked for.
pub proof fn lemma_unknown_connector_is_dropped(
    displays: Seq<DisplayInstanceView>,
    show: SetWebviewView,
    count: int,
)
    requires
        show.connector is Some,
        forall|i: int|
            0 <= i < displays.len() ==> (#[trigger] displays[i]).connector
                != show.connector.unwrap(),
        0 <= count <= displays.len(),
    ensures
        actions_upto(displays, show, count) == Seq::<DisplayActionView>::empty(),
        displays_after(displays, show) == displays,
    decreases count,
{
    if count > 0 {
        lemma_unknown_connector_is_dropped(displays, show, count - 1);
        assert(!addressed(displays[count - 1], show));
    }
    assert(displays_after(displays, show) =~= displays);
}

/// The displays, in the order of the monitors they were made for.
pub struct DisplayRegistry {
    instances: Vec<DisplayInstance>,
}

impl View for DisplayRegistry {
    type V = Seq<DisplayInstanceView>;

    closed spec fn view(&self) -> Seq<DisplayInstanceView> {
        self.instances@.map_values(|d: DisplayInstance| d@)
    }
}

impl DisplayRegistry {
    /// One display for each connector, none of them showing a served
    /// directory yet.
    pub fn new(connectors: Vec<String>) -> (registry: Self)
        ensures
            registry@.len() == connectors@.len(),
            forall|i: int|
                0 <= i < connectors@.len() ==> #[trigger] registry@[i] == (DisplayInstanceView {
                    connector: connectors@[i]@,
                    wallpaper_path: None,
                }),
    {
        let mut instances: Vec<DisplayInstance> = Vec::new();
        let mut i: usize = 0;
        while i < connectors.len()
            invariant
                i <= connectors@.len(),
                instances@.len() == i,
                forall|k: int|
                    0 <= k < i ==> (#[trigger] instances@[k])@ == (DisplayInstanceView {
                        connector: connectors@[k]@,
                        wallpaper_path: None,
                    }),
            decreases connectors@.len() - i,
        {
            instances.push(
                DisplayInstance { connector: connectors[i].clone(), wallpaper_path: None },
            );
            i += 1;
        }
        DisplayRegistry { instances }
    }

    /// How many displays there are.
    pub fn len(&self) -> (n: usize)
        ensures
            n == self@.len(),
    {
        self.instances.len()
    }

    /// The connector of the display at place `index`.
    pub fn connector(&self, index: usize) -> (name: String)
        requires
            index < self@.len(),
        ensures
            name@ == self@[index as int].connector,
    {
        self.instances[index].connector.clone()
    }

    /// The served directory that the display at place `index` shows.
    pub fn wallpaper_path(&self, index: usize) -> (path: Option<String>)
        requires
            index < self@.len(),
        ensures
            path.deep_view() == self@[index as int].wallpaper_path,
    {
        clone_option(&self.instances[index].wallpaper_path)
    }

    /// Obeys a command: every display that it is meant for takes note of
    /// what it shows from now on. The answer lists, display by display, what
    /// has to be done: first the notice for the directory that the display
    /// leaves, if it leaves one, then the load. A command that names a
    /// connector which no display has is dropped: nothing changes, and the
    /// answer is empty.
    pub fn apply(&mut self, cmd: UiCmd) -> (actions: Vec<DisplayAction>)
        ensures
            final(self)@ == displays_after(old(self)@, shown(cmd@)),
            action_views(actions@) == actions_upto(
                old(self)@,
                shown(cmd@),
                old(self)@.len() as int,
            ),
    {
        let show = match cmd {
            UiCmd::SetWebview(show) => show,
        };
        let mut actions: Vec<DisplayAction> = Vec::new();
        let mut i: usize = 0;
        while i < self.instances.len()
            invariant
                i <= self@.len(),
                self@.len() == old(self)@.len(),
                forall|k: int|
                    0 <= k < i ==> #[trigger] self@[k] == display_after(old(self)@[k], show@),
                forall|k: int| i <= k < self@.len() ==> #[trigger] self@[k] == old(self)@[k],
                action_views(actions@) == actions_upto(old(self)@, show@, i as int),
            decreases self@.len() - i,
        {
            let ghost display = self@[i as int];
            let ghost displays = self@;
            let ghost done = action_views(actions@);
            let meant = match &show.connector {
                None => true,
                Some(name) => *name.as_str() == *self.instances[i].connector.as_str(),
            };
            if meant {
                if !same_option(&self.instances[i].wallpaper_path, &show.path) {
                    match clone_option(&self.instances[i].wallpaper_path) {
                        Some(path) => {
                            actions.push(
                                DisplayAction::Notify(
                                    UiEvent::ReleaseServer(ReleaseServer { path }),
                                ),
                            );
                        },
                        None => {},
                    }
                }
                self.instances[i].wallpaper_path = clone_option(&show.path);
                actions.push(DisplayAction::Load { instance: i, url: show.url.clone() });
            }
            proof {
                assert(action_views(actions@) =~= done + actions_of(i as int, display, show@));
                assert(self@[i as int] == display_after(display, show@));
                assert forall|k: int| 0 <= k < self@.len() && k != i implies #[trigger] self@[k]
                    == displays[k] by {}
            }
            i += 1;
        }
        proof {
            assert(self@ =~= displays_after(old(self)@, show@));
        }
        actions
    }
}

} // verus!
