//! The application controller: the active tab, the four view models, and
//! the two transition functions of the console.
//!
//! Every state change of the console goes through exactly two doors:
//! `apply_event` routes one decoded bus notification to the view model that
//! owns it, and `handle_key` turns one keypress into a state transition and
//! possibly one outbound command. Both are total functions of the current
//! state; the surrounding loop only drains the queue, draws, polls and
//! sends.

use vstd::prelude::*;

use crate::apps::{spec_selected_app_id, upsert_apps, AppsView};
use crate::dashboard::DashboardView;
use crate::events::{AppStatus, Command, LogEntry, NatsEvent, NodeStatus, PeerInfo};
use crate::logs::{
    log_append, spec_bottom_scroll, spec_scrolled_down, spec_scrolled_up, LogsView,
};
use crate::peers::{removed_peers, upsert_peers, PeersView};
use crate::select::{sel_next, sel_prev};

verus! {

/// One of the four fixed view modes of the console.
#[derive(Debug, Clone, Copy, PartialEq, Eq, Structural)]
pub enum Tab {
    Dashboard,
    Peers,
    Apps,
    Logs,
}

impl Tab {
    /// The fixed tab ordering used by `next`/`previous` navigation.
    pub fn all() -> (r: [Tab; 4])
        ensures
            r@ == seq![Tab::Dashboard, Tab::Peers, Tab::Apps, Tab::Logs],
    {
        let r = [Tab::Dashboard, Tab::Peers, Tab::Apps, Tab::Logs];
        proof {
            assert(r@ =~= seq![Tab::Dashboard, Tab::Peers, Tab::Apps, Tab::Logs]);
        }
        r
    }

    /// Position of this tab in the fixed ordering.
    pub open spec fn spec_index(self) -> int {
        match self {
            Tab::Dashboard => 0,
            Tab::Peers => 1,
            Tab::Apps => 2,
            Tab::Logs => 3,
        }
    }

    /// Position of this tab in the fixed ordering.
    pub fn index(&self) -> (i: usize)
        ensures
            i == self.spec_index(),
    {
        match self {
            Tab::Dashboard => 0,
            Tab::Peers => 1,
            Tab::Apps => 2,
            Tab::Logs => 3,
        }
    }

    /// Display title of this tab.
    pub fn title(&self) -> (t: &'static str)
        ensures
            t@ == self.spec_title(),
    {
        match self {
            Tab::Dashboard => "Dashboard",
            Tab::Peers => "Peers",
            Tab::Apps => "Apps",
            Tab::Logs => "Logs",
        }
    }

    /// Display title of this tab.
    pub open spec fn spec_title(self) -> Seq<char> {
        match self {
            Tab::Dashboard => "Dashboard"@,
            Tab::Peers => "Peers"@,
            Tab::Apps => "Apps"@,
            Tab::Logs => "Logs"@,
        }
    }
}

/// The tab after this one in the circular ordering.
pub open spec fn spec_next_tab(t: Tab) -> Tab {
    match t {
        Tab::Dashboard => Tab::Peers,
        Tab::Peers => Tab::Apps,
        Tab::Apps => Tab::Logs,
        Tab::Logs => Tab::Dashboard,
    }
}

/// The tab before this one in the circular ordering.
pub open spec fn spec_prev_tab(t: Tab) -> Tab {
    match t {
        Tab::Dashboard => Tab::Logs,
        Tab::Peers => Tab::Dashboard,
        Tab::Apps => Tab::Peers,
        Tab::Logs => Tab::Apps,
    }
}

/// One keypress, as the input source hands it to the controller. Only
/// presses reach the controller; release and repeat artifacts are filtered
/// at the input edge.
#[derive(Debug, Clone, Copy, PartialEq, Eq, Structural)]
pub enum Key {
    Char(char),
    Up,
    Down,
    Left,
    Right,
    Enter,
    Backspace,
    Esc,
    Tab,
    BackTab,
    /// Any key the console has no binding for.
    Other,
}

/// The whole console state, abstractly: what the controller and the four
/// view models hold between iterations of the update loop.
#[verifier::ext_equal]
pub ghost struct ConsoleState {
    pub tab: Tab,
    pub should_quit: bool,
    pub node_status: Option<NodeStatus>,
    pub peer_count: int,
    pub connected: bool,
    pub peers: Seq<PeerInfo>,
    pub peers_selected: Option<usize>,
    pub apps: Seq<AppStatus>,
    pub apps_selected: Option<usize>,
    pub logs: Seq<LogEntry>,
    pub scroll: u16,
    pub filter_level: Option<String>,
    pub filter_service: Option<String>,
}

/// Console state: the active tab, the quit flag and the four view models.
#[derive(Debug)]
pub struct App {
    pub tab: Tab,
    pub should_quit: bool,
    pub dashboard: DashboardView,
    pub peers: PeersView,
    pub apps: AppsView,
    pub logs: LogsView,
}

impl View for App {
    type V = ConsoleState;

    open spec fn view(&self) -> ConsoleState {
        ConsoleState {
            tab: self.tab,
            should_quit: self.should_quit,
            node_status: self.dashboard.node_status,
            peer_count: self.dashboard.peer_count as int,
            connected: self.dashboard.connected,
            peers: self.peers.peers@,
            peers_selected: self.peers.selected,
            apps: self.apps.apps@,
            apps_selected: self.apps.selected,
            logs: self.logs.entries@,
            scroll: self.logs.scroll,
            filter_level: self.logs.filter_level,
            filter_service: self.logs.filter_service,
        }
    }
}

/// The console state a fresh controller starts in.
pub open spec fn init_state() -> ConsoleState {
    ConsoleState {
        tab: Tab::Dashboard,
        should_quit: false,
        node_status: None,
        peer_count: 0,
        connected: false,
        peers: Seq::empty(),
        peers_selected: None,
        apps: Seq::empty(),
        apps_selected: None,
        logs: Seq::empty(),
        scroll: 0,
        filter_level: None,
        filter_service: None,
    }
}

/// The state after one decoded bus notification is routed to the view
/// model that owns it. Bus errors are surfaced outside the core and leave
/// the state untouched.
pub open spec fn apply_event_s(s: ConsoleState, e: NatsEvent) -> ConsoleState {
    match e {
        NatsEvent::NodeStatus(st) => ConsoleState { node_status: Some(st), ..s },
        NatsEvent::PeerDiscovered(p) => ConsoleState {
            peers: upsert_peers(s.peers, p),
            peer_count: upsert_peers(s.peers, p).len() as int,
            ..s
        },
        NatsEvent::PeerDisconnected(id) => ConsoleState {
            peers: removed_peers(s.peers, id@),
            peer_count: removed_peers(s.peers, id@).len() as int,
            ..s
        },
        NatsEvent::Log(entry) => ConsoleState { logs: log_append(s.logs, entry), ..s },
        NatsEvent::AppStatus(st) => ConsoleState { apps: upsert_apps(s.apps, st), ..s },
        NatsEvent::Connected => ConsoleState { connected: true, ..s },
        NatsEvent::Disconnected => ConsoleState { connected: false, ..s },
        NatsEvent::Error(_) => s,
    }
}

/// The state after a whole batch of notifications is applied in arrival
/// order.
pub open spec fn replay(s: ConsoleState, events: Seq<NatsEvent>) -> ConsoleState
    decreases events.len(),
{
    if events.len() == 0 {
        s
    } else {
        apply_event_s(replay(s, events.drop_last()), events.last())
    }
}

/// Replaying a batch is the same as replaying any split of it in order:
/// applying events one by one, or all at once before a single render,
/// ends in the same state, because rendering reads state without changing
/// it.
pub proof fn lemma_replay_split(s: ConsoleState, e1: Seq<NatsEvent>, e2: Seq<NatsEvent>)
    ensures
        replay(s, e1 + e2) == replay(replay(s, e1), e2),
    decreases e2.len(),
{
    if e2.len() == 0 {
        assert(e1 + e2 =~= e1);
    } else {
        lemma_replay_split(s, e1, e2.drop_last());
        assert((e1 + e2).drop_last() =~= e1 + e2.drop_last());
        assert((e1 + e2).last() == e2.last());
    }
}

/// The dashboard's peer counter mirrors the peer list: once they agree,
/// replaying any batch keeps them agreeing.
pub proof fn lemma_peer_count_mirrors(s: ConsoleState, events: Seq<NatsEvent>)
    requires
        s.peer_count == s.peers.len(),
    ensures
        replay(s, events).peer_count == replay(s, events).peers.len(),
    decreases events.len(),
{
    if events.len() > 0 {
        lemma_peer_count_mirrors(s, events.drop_last());
    }
}

/// Bus events only feed the view models: no event moves the active tab,
/// quits the console, moves a cursor, scrolls, or changes a filter.
pub proof fn lemma_replay_touches_views_only(s: ConsoleState, events: Seq<NatsEvent>)
    ensures
        replay(s, events).tab == s.tab,
        replay(s, events).should_quit == s.should_quit,
        replay(s, events).peers_selected == s.peers_selected,
        replay(s, events).apps_selected == s.apps_selected,
        replay(s, events).scroll == s.scroll,
        replay(s, events).filter_level == s.filter_level,
        replay(s, events).filter_service == s.filter_service,
    decreases events.len(),
{
    if events.len() > 0 {
        lemma_replay_touches_views_only(s, events.drop_last());
    }
}

/// Whether `e` is a join event for the peer identifier `id`.
pub open spec fn is_join(e: NatsEvent, id: Seq<char>) -> bool {
    match e {
        NatsEvent::PeerDiscovered(p) => p.node_id@ == id,
        _ => false,
    }
}

/// Whether `e` is a leave event for the peer identifier `id`.
pub open spec fn is_leave(e: NatsEvent, id: Seq<char>) -> bool {
    match e {
        NatsEvent::PeerDisconnected(x) => x@ == id,
        _ => false,
    }
}

/// Whether `id` joined at some point of `events` and did not leave
/// afterwards.
pub open spec fn live_peer(events: Seq<NatsEvent>, id: Seq<char>) -> bool {
    exists|k: int|
        0 <= k < events.len() && #[trigger] is_join(events[k], id) && (forall|m: int|
            k < m < events.len() ==> !is_leave(events[m], id))
}

/// How liveness changes with the last event: a leave kills it, a join
/// establishes it, anything else passes it through.
proof fn lemma_live_peer_step(events: Seq<NatsEvent>, id: Seq<char>)
    requires
        events.len() > 0,
    ensures
        live_peer(events, id) == (if is_leave(events.last(), id) {
            false
        } else if is_join(events.last(), id) {
            true
        } else {
            live_peer(events.drop_last(), id)
        }),
{
    let n = events.len() as int;
    let dl = events.drop_last();
    assert forall|j: int| 0 <= j < n - 1 implies dl[j] == events[j] by {}
    if is_leave(events.last(), id) {
        if live_peer(events, id) {
            let k = choose|k: int|
                0 <= k < n && #[trigger] is_join(events[k], id) && (forall|m: int|
                    k < m < n ==> !is_leave(events[m], id));
            assert(!is_join(events.last(), id));
            assert(k < n - 1);
            assert(!is_leave(events[n - 1], id));
            assert(false);
        }
    } else if is_join(events.last(), id) {
        assert(forall|m: int| n - 1 < m < n ==> !is_leave(events[m], id));
        assert(live_peer(events, id));
    } else {
        if live_peer(events, id) {
            let k = choose|k: int|
                0 <= k < n && #[trigger] is_join(events[k], id) && (forall|m: int|
                    k < m < n ==> !is_leave(events[m], id));
            assert(k < n - 1);
            assert(is_join(dl[k], id));
            assert(forall|m: int| k < m < n - 1 ==> !is_leave(dl[m], id));
            assert(live_peer(dl, id));
        }
        if live_peer(dl, id) {
            let k = choose|k: int|
                0 <= k < n - 1 && #[trigger] is_join(dl[k], id) && (forall|m: int|
                    k < m < n - 1 ==> !is_leave(dl[m], id));
            assert(is_join(events[k], id));
            assert forall|m: int| k < m < n implies !is_leave(events[m], id) by {
                if m < n - 1 {
                    assert(!is_leave(dl[m], id));
                }
            }
            assert(live_peer(events, id));
        }
    }
}

/// The peer replay law: starting from no peers, after any sequence of
/// events the peer set holds exactly the identifiers that joined and did
/// not subsequently leave, with no duplicate identifiers.
pub proof fn lemma_peer_replay(s0: ConsoleState, events: Seq<NatsEvent>)
    requires
        s0.peers.len() == 0,
    ensures
        crate::peers::unique_ids(replay(s0, events).peers),
        forall|id: Seq<char>|
            #[trigger] crate::peers::has_id(replay(s0, events).peers, id) <==> live_peer(
                events,
                id,
            ),
    decreases events.len(),
{
    if events.len() == 0 {
    } else {
        let dl = events.drop_last();
        let e = events.last();
        lemma_peer_replay(s0, dl);
        let t = replay(s0, dl);
        let u = replay(s0, events);
        assert(u == apply_event_s(t, e));
        match e {
            NatsEvent::PeerDiscovered(p) => {
                crate::peers::lemma_upsert_membership(t.peers, p);
            },
            NatsEvent::PeerDisconnected(x) => {
                crate::peers::lemma_removed_membership(t.peers, x@);
            },
            _ => {
                assert(u.peers == t.peers);
            },
        }
        assert forall|id: Seq<char>| #[trigger]
            crate::peers::has_id(u.peers, id) <==> live_peer(events, id) by {
            lemma_live_peer_step(events, id);
        }
    }
}

/// The state and the outbound command produced by one keypress: global
/// bindings (quit, tab switching) first, then the active tab's own
/// bindings. Command keys without a valid selection are no-ops.
pub open spec fn spec_key_step(s: ConsoleState, key: Key) -> (ConsoleState, Option<Command>) {
    if key == Key::Char('q') || key == Key::Esc {
        (ConsoleState { should_quit: true, ..s }, None)
    } else if key == Key::Tab {
        (ConsoleState { tab: spec_next_tab(s.tab), ..s }, None)
    } else if key == Key::BackTab {
        (ConsoleState { tab: spec_prev_tab(s.tab), ..s }, None)
    } else if key == Key::Char('1') {
        (ConsoleState { tab: Tab::Dashboard, ..s }, None)
    } else if key == Key::Char('2') {
        (ConsoleState { tab: Tab::Peers, ..s }, None)
    } else if key == Key::Char('3') {
        (ConsoleState { tab: Tab::Apps, ..s }, None)
    } else if key == Key::Char('4') {
        (ConsoleState { tab: Tab::Logs, ..s }, None)
    } else {
        match s.tab {
            Tab::Dashboard => (s, None),
            Tab::Peers => if key == Key::Down || key == Key::Char('j') {
                (
                    ConsoleState {
                        peers_selected: sel_next(s.peers_selected, s.peers.len() as int),
                        ..s
                    },
                    None,
                )
            } else if key == Key::Up || key == Key::Char('k') {
                (
                    ConsoleState {
                        peers_selected: sel_prev(s.peers_selected, s.peers.len() as int),
                        ..s
                    },
                    None,
                )
            } else {
                (s, None)
            },
            Tab::Apps => if key == Key::Down || key == Key::Char('j') {
                (
                    ConsoleState {
                        apps_selected: sel_next(s.apps_selected, s.apps.len() as int),
                        ..s
                    },
                    None,
                )
            } else if key == Key::Up || key == Key::Char('k') {
                (
                    ConsoleState {
                        apps_selected: sel_prev(s.apps_selected, s.apps.len() as int),
                        ..s
                    },
                    None,
                )
            } else if key == Key::Char('s') {
                (
                    s,
                    match spec_selected_app_id(s.apps_selected, s.apps) {
                        Some(id) => Some(Command::StartApp { app_id: id }),
                        None => None,
                    },
                )
            } else if key == Key::Char('x') {
                (
                    s,
                    match spec_selected_app_id(s.apps_selected, s.apps) {
                        Some(id) => Some(Command::StopApp { app_id: id }),
                        None => None,
                    },
                )
            } else if key == Key::Char('r') {
                (
                    s,
                    match spec_selected_app_id(s.apps_selected, s.apps) {
                        Some(id) => Some(Command::RestartApp { app_id: id }),
                        None => None,
                    },
                )
            } else {
                (s, None)
            },
            Tab::Logs => if key == Key::Down || key == Key::Char('j') {
                (ConsoleState { scroll: spec_scrolled_down(s.scroll), ..s }, None)
            } else if key == Key::Up || key == Key::Char('k') {
                (ConsoleState { scroll: spec_scrolled_up(s.scroll), ..s }, None)
            } else if key == Key::Char('G') {
                (ConsoleState { scroll: spec_bottom_scroll(s.logs.len() as int), ..s }, None)
            } else if key == Key::Char('c') {
                (ConsoleState { logs: Seq::empty(), scroll: 0, ..s }, None)
            } else {
                (s, None)
            },
        }
    }
}

impl App {
    /// A fresh console: dashboard tab, nothing seen yet, disconnected.
    pub fn new() -> (r: Self)
        ensures
            r@ == init_state(),
    {
        let r = App {
            tab: Tab::Dashboard,
            should_quit: false,
            dashboard: DashboardView::new(),
            peers: PeersView::new(),
            apps: AppsView::new(),
            logs: LogsView::new(),
        };
        proof {
            assert(r@ =~= init_state());
        }
        r
    }

    /// Route one decoded notification to the view model that owns it.
    pub fn apply_event(&mut self, event: NatsEvent)
        ensures
            final(self)@ == apply_event_s(old(self)@, event),
    {
        match event {
            NatsEvent::NodeStatus(st) => {
                self.dashboard.node_status = Some(st);
            },
            NatsEvent::PeerDiscovered(p) => {
                self.peers.add_peer(p);
                self.dashboard.peer_count = self.peers.peers.len();
            },
            NatsEvent::PeerDisconnected(id) => {
                self.peers.remove_peer(id.as_str());
                self.dashboard.peer_count = self.peers.peers.len();
            },
            NatsEvent::Log(entry) => {
                self.logs.add_entry(entry);
            },
            NatsEvent::AppStatus(st) => {
                self.apps.update_app(st);
            },
            NatsEvent::Connected => {
                self.dashboard.connected = true;
            },
            NatsEvent::Disconnected => {
                self.dashboard.connected = false;
            },
            NatsEvent::Error(_) => {
                // Surfaced by the embedding as a diagnostic; no view state
                // changes.
            },
        }
    }

    /// Apply a drained batch of notifications in arrival order.
    pub fn process_events(&mut self, events: Vec<NatsEvent>)
        ensures
            final(self)@ == replay(old(self)@, events@),
    {
        let ghost s0 = self@;
        let ghost evs = events@;
        let mut pending = events;
        proof {
            assert(evs.take(0) =~= Seq::<NatsEvent>::empty());
            assert(evs.skip(0) =~= evs);
        }
        while pending.len() > 0
            invariant
                evs.len() >= pending.len(),
                pending@ == evs.skip(evs.len() - pending.len()),
                self@ == replay(s0, evs.take(evs.len() - pending.len())),
            decreases pending.len(),
        {
            let ghost done = evs.len() - pending.len();
            let e = pending.remove(0);
            proof {
                assert(e == evs[done]);
                assert(pending@ =~= evs.skip(done + 1));
            }
            self.apply_event(e);
            proof {
                assert(evs.take(done + 1).drop_last() =~= evs.take(done));
                assert(evs.take(done + 1).last() == evs[done]);
            }
        }
        proof {
            assert(evs.take(evs.len() as int) =~= evs);
        }
    }

    /// Switch to the next tab, wrapping over the fixed ordering. The
    /// destination tab's accumulated state is untouched.
    pub fn next_tab(&mut self)
        ensures
            final(self)@ == (ConsoleState { tab: spec_next_tab(old(self)@.tab), ..old(self)@ }),
    {
        let tabs = Tab::all();
        let current = self.tab.index();
        self.tab = tabs[(current + 1) % 4];
    }

    /// Switch to the previous tab, wrapping over the fixed ordering.
    pub fn prev_tab(&mut self)
        ensures
            final(self)@ == (ConsoleState { tab: spec_prev_tab(old(self)@.tab), ..old(self)@ }),
    {
        let tabs = Tab::all();
        let current = self.tab.index();
        self.tab = tabs[(current + 4 - 1) % 4];
    }

    /// Handle one keypress: global bindings first, then the active tab's
    /// own bindings. Returns the outbound command the keypress asks for,
    /// if any; sending it is the embedding's job.
    pub fn handle_key(&mut self, key: Key) -> (cmd: Option<Command>)
        ensures
            final(self)@ == spec_key_step(old(self)@, key).0,
            cmd == spec_key_step(old(self)@, key).1,
    {
        match key {
            Key::Char('q') | Key::Esc => {
                self.should_quit = true;
                return None;
            },
            Key::Tab => {
                self.next_tab();
                return None;
            },
            Key::BackTab => {
                self.prev_tab();
                return None;
            },
            Key::Char('1') => {
                self.tab = Tab::Dashboard;
                return None;
            },
            Key::Char('2') => {
                self.tab = Tab::Peers;
                return None;
            },
            Key::Char('3') => {
                self.tab = Tab::Apps;
                return None;
            },
            Key::Char('4') => {
                self.tab = Tab::Logs;
                return None;
            },
            _ => {},
        }
        match self.tab {
            Tab::Dashboard => {
                // The dashboard has no local bindings.
            },
            Tab::Peers => {
                match key {
                    Key::Down | Key::Char('j') => self.peers.select_next(),
                    Key::Up | Key::Char('k') => self.peers.select_previous(),
                    _ => {},
                }
            },
            Tab::Apps => {
                match key {
                    Key::Down | Key::Char('j') => self.apps.select_next(),
                    Key::Up | Key::Char('k') => self.apps.select_previous(),
                    Key::Char('s') => {
                        return match self.apps.selected_app_id() {
                            Some(app_id) => Some(Command::StartApp { app_id }),
                            None => None,
                        };
                    },
                    Key::Char('x') => {
                        return match self.apps.selected_app_id() {
                            Some(app_id) => Some(Command::StopApp { app_id }),
                            None => None,
                        };
                    },
                    Key::Char('r') => {
                        return match self.apps.selected_app_id() {
                            Some(app_id) => Some(Command::RestartApp { app_id }),
                            None => None,
                        };
                    },
                    _ => {},
                }
            },
            Tab::Logs => {
                match key {
                    Key::Down | Key::Char('j') => self.logs.scroll_down(),
                    Key::Up | Key::Char('k') => self.logs.scroll_up(),
                    Key::Char('G') => self.logs.scroll_to_bottom(),
                    Key::Char('c') => self.logs.clear(),
                    _ => {},
                }
            },
        }
        None
    }

    /// The key hints shown under the active tab.
    pub fn help_text(&self) -> (r: &'static str)
        ensures
            r@ == spec_help_text(self.tab),
    {
        match self.tab {
            Tab::Dashboard => "q: Quit | Tab: Next tab | 1-4: Switch tab",
            Tab::Peers => "q: Quit | Tab: Next tab | j/k: Navigate",
            Tab::Apps => "q: Quit | Tab: Next tab | j/k: Navigate | s: Start | x: Stop | r: Restart",
            Tab::Logs => "q: Quit | Tab: Next tab | j/k: Scroll | G: Bottom | c: Clear",
        }
    }
}

/// The key hints shown under each tab.
pub open spec fn spec_help_text(tab: Tab) -> Seq<char> {
    match tab {
        Tab::Dashboard => "q: Quit | Tab: Next tab | 1-4: Switch tab"@,
        Tab::Peers => "q: Quit | Tab: Next tab | j/k: Navigate"@,
        Tab::Apps => "q: Quit | Tab: Next tab | j/k: Navigate | s: Start | x: Stop | r: Restart"@,
        Tab::Logs => "q: Quit | Tab: Next tab | j/k: Scroll | G: Bottom | c: Clear"@,
    }
}

} // verus!
