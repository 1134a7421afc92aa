//! The open tabs, and what lies under a point of the screen.

use vstd::arithmetic::div_mod::*;
use vstd::prelude::*;
use vstd::string::*;

use crate::app::{has_host, lists_host, move_within, moved, App, TabPresentation};
use crate::geometry::Rect;
use crate::hosts::{HostId, KeyView, ScopedTarget, SessionKey};
use crate::navigation::optional_scoped;
use crate::presentations::{gone_offline, mark_offline, presented, sync, synced, without};
use crate::protocol::{find_workspace, workspace_with, Snapshot};
use crate::seqs::{find, position, position_is_first};
use vstd::utf8::encode_utf8;

verus! {

/// The tabs of a session.
pub open spec fn tab_with(key: KeyView) -> spec_fn(ScopedTarget) -> bool {
    |tab: ScopedTarget| tab.key@ == key
}

/// Where the tab of a session stands.
pub fn find_tab(tabs: &Vec<ScopedTarget>, key: &SessionKey) -> (found: Option<usize>)
    ensures
        match found {
            Some(at) => at < tabs@.len() && position(tabs@, tab_with(key@), 0) == at,
            None => position(tabs@, tab_with(key@), 0) == tabs@.len(),
        },
{
    let mut at: usize = 0;
    while at < tabs.len()
        invariant
            at <= tabs@.len(),
            position(tabs@, tab_with(key@), at as int) == position(tabs@, tab_with(key@), 0),
        decreases tabs@.len() - at,
    {
        if tabs[at].key == *key {
            return Some(at);
        }
        at = at + 1;
    }
    None
}

/// The tabs after one was asked for: a session has one tab.
pub open spec fn with_tab(tabs: Seq<ScopedTarget>, tab: ScopedTarget) -> Seq<ScopedTarget> {
    if find(tabs, tab_with(tab.key@)) is Some {
        tabs
    } else {
        tabs.push(tab)
    }
}

/// Whether no session has two tabs.
pub open spec fn tabs_differ(tabs: Seq<ScopedTarget>) -> bool {
    forall|i: int, j: int|
        0 <= i < j < tabs.len() ==> (#[trigger] tabs[i]).key@ != (#[trigger] tabs[j]).key@
}

/// However often a session is opened, and whatever tab is closed, no session has two tabs.
pub proof fn a_session_has_one_tab(tabs: Seq<ScopedTarget>, tab: ScopedTarget, closed: int)
    requires
        tabs_differ(tabs),
    ensures
        tabs_differ(with_tab(tabs, tab)),
        with_tab(with_tab(tabs, tab), tab) == with_tab(tabs, tab),
        0 <= closed < tabs.len() ==> tabs_differ(tabs.remove(closed)),
{
    let wanted = tab_with(tab.key@);
    position_is_first(tabs, wanted, 0);
    if find(tabs, wanted) is None {
        let after = tabs.push(tab);
        assert forall|i: int, j: int| 0 <= i < j < after.len() implies (
        #[trigger] after[i]).key@ != (#[trigger] after[j]).key@ by {
            if j == tabs.len() {
                assert(!wanted(tabs[i]));
            }
        }
        position_is_first(after, wanted, 0);
        if position(after, wanted, 0) == after.len() {
            assert(!wanted(after[tabs.len() as int]));
        }
    }
}

fn copy_tabs(tabs: &Vec<ScopedTarget>) -> (copy: Vec<ScopedTarget>)
    ensures
        copy@ == tabs@,
{
    let mut copy: Vec<ScopedTarget> = Vec::new();
    let mut at: usize = 0;
    while at < tabs.len()
        invariant
            at <= tabs@.len(),
            copy@ == tabs@.take(at as int),
        decreases tabs@.len() - at,
    {
        copy.push(tabs[at].clone());
        at = at + 1;
    }
    assert(tabs@.take(at as int) =~= tabs@);
    copy
}

fn join_tab(tabs: &Vec<ScopedTarget>, tab: &ScopedTarget) -> (list: Vec<ScopedTarget>)
    ensures
        list@ == with_tab(tabs@, *tab),
{
    let mut list = copy_tabs(tabs);
    if find_tab(tabs, &tab.key).is_none() {
        list.push(tab.clone());
    }
    list
}

fn remove_tab(tabs: &Vec<ScopedTarget>, at: usize) -> (list: Vec<ScopedTarget>)
    requires
        at < tabs@.len(),
    ensures
        list@ == tabs@.remove(at as int),
{
    let mut list = copy_tabs(tabs);
    let _ = list.remove(at);
    list
}

/// The tab that is shown where the tab at a place was closed: the one that takes its place, else
/// the last.
pub open spec fn neighbour(tabs: Seq<ScopedTarget>, at: int) -> Option<ScopedTarget> {
    if tabs.len() == 0 {
        None
    } else if at < tabs.len() {
        Some(tabs[at])
    } else {
        Some(tabs.last())
    }
}

fn find_neighbour(tabs: &Vec<ScopedTarget>, at: usize) -> (tab: Option<ScopedTarget>)
    ensures
        tab == neighbour(tabs@, at as int),
{
    if tabs.len() == 0 {
        None
    } else if at < tabs.len() {
        Some(tabs[at].clone())
    } else {
        Some(tabs[tabs.len() - 1].clone())
    }
}

/// The places that hold a point.
pub open spec fn at_point<T>(point: (u16, u16)) -> spec_fn((Rect, T)) -> bool {
    |place: (Rect, T)| place.0.holds(point)
}

/// What stands at a point: the first place that holds it.
pub open spec fn hit<T>(places: Seq<(Rect, T)>, point: (u16, u16)) -> Option<T> {
    match find(places, at_point(point)) {
        Some(place) => Some(place.1),
        None => None,
    }
}

fn find_place<T>(places: &Vec<(Rect, T)>, point: (u16, u16)) -> (found: Option<usize>)
    ensures
        match found {
            Some(at) => at < places@.len() && position(places@, at_point(point), 0) == at,
            None => position(places@, at_point(point), 0) == places@.len(),
        },
{
    let mut at: usize = 0;
    while at < places.len()
        invariant
            at <= places@.len(),
            position(places@, at_point(point), at as int) == position(places@, at_point(point), 0),
        decreases places@.len() - at,
    {
        if places[at].0.contains(point) {
            return Some(at);
        }
        at = at + 1;
    }
    None
}

fn key_at(places: &Vec<(Rect, SessionKey)>, point: (u16, u16)) -> (key: Option<SessionKey>)
    ensures
        key == hit(places@, point),
{
    match find_place(places, point) {
        Some(at) => Some(places[at].1.clone()),
        None => None,
    }
}

/// The tab a number of steps away, from the last back to the first.
pub open spec fn stepped(at: int, delta: isize, count: int) -> int {
    (at + delta) % count
}

fn step(at: usize, delta: isize, count: usize) -> (next: usize)
    requires
        at < count,
    ensures
        next == stepped(at as int, delta, count as int),
        next < count,
{
    let place: i128 = at as i128 + delta as i128;
    let length: i128 = count as i128;
    if place >= 0 {
        (place % length) as usize
    } else {
        let missing: i128 = (-place) % length;
        proof {
            let turns = (-place) as int / length as int;
            lemma_fundamental_div_mod((-place) as int, length as int);
            if missing == 0 {
                assert(place == length * (-turns) + 0) by (nonlinear_arith)
                    requires
                        -place == length * turns + 0,
                ;
                lemma_mod_multiples_vanish(-turns, 0, length as int);
            } else {
                assert(place == length * (-turns - 1) + (length - missing)) by (nonlinear_arith)
                    requires
                        -place == length * turns + missing,
                ;
                lemma_mod_multiples_vanish(-turns - 1, length - missing, length as int);
                lemma_small_mod((length - missing) as nat, length as nat);
            }
        }
        if missing == 0 {
            0
        } else {
            (length - missing) as usize
        }
    }
}

/// A workspace whose tab is shown at the top of the screen.
pub open spec fn header_workspace(snapshot: Option<Snapshot>, workspace: Option<Seq<char>>) -> Seq<
    char,
> {
    match (snapshot, workspace) {
        (Some(snapshot), Some(id)) => match find(snapshot.workspaces@, workspace_with(id)) {
            Some(workspace) => workspace.name@,
            None => "Open project"@,
        },
        _ => "Open project"@,
    }
}

/// The machine that is shown at the top of the screen.
pub open spec fn header_machine(snapshot: Option<Snapshot>) -> Seq<char> {
    match snapshot {
        Some(snapshot) => snapshot.machine.name@,
        None => "local"@,
    }
}

impl App {
    /// Shows a tab: it names the workspace and the machine that are shown with it.
    pub open spec fn showing(self, tab: ScopedTarget) -> App {
        App {
            workspace_id: Some(tab.target.workspace_id),
            selected_host: tab.key.host_id,
            active_target: Some(tab),
            ..self
        }
    }

    /// What opening a tab for a target does.
    pub open spec fn joined_tab(self, after: App, target: ScopedTarget) -> bool {
        &&& after.tabs@ == with_tab(self.tabs@, target)
        &&& after == (App {
            tabs: after.tabs,
            ..self.without_saved_transcript().showing(target)
        })
    }

    /// Opens a tab for a target, unless its session has one, and shows it.
    pub fn add_tab(&mut self, target: ScopedTarget)
        ensures
            old(self).joined_tab(*final(self), target),
    {
        let tabs = join_tab(&self.tabs, &target);
        self.clear_saved_transcript();
        self.tabs = tabs;
        self.workspace_id = Some(target.target.workspace_id.clone());
        self.selected_host = target.key.host_id.clone();
        self.active_target = Some(target);
    }

    /// The tabs of a host take a new snapshot of it in.
    pub fn sync_tab_presentations(&mut self, host_id: &HostId, snapshot: &Snapshot)
        ensures
            presented(final(self).tab_presentations@) == synced(
                presented(old(self).tab_presentations@),
                old(self).tabs@,
                host_id@,
                *snapshot,
                !lists_host(old(self).live_hosts@, host_id@),
            ),
            *final(self) == (App {
                tab_presentations: final(self).tab_presentations,
                ..*old(self)
            }),
    {
        let offline: bool = !has_host(&self.live_hosts, host_id);
        let list = sync(&self.tab_presentations, &self.tabs, host_id, snapshot, offline);
        self.tab_presentations = list;
    }

    /// The tabs of a host show that it went away.
    pub fn mark_tabs_offline(&mut self, host_id: &HostId)
        ensures
            presented(final(self).tab_presentations@) == gone_offline(
                presented(old(self).tab_presentations@),
                old(self).tabs@,
                host_id@,
            ),
            *final(self) == (App {
                tab_presentations: final(self).tab_presentations,
                ..*old(self)
            }),
    {
        let list = mark_offline(&self.tab_presentations, &self.tabs, host_id);
        self.tab_presentations = list;
    }

    /// What choosing the tab of a session does: it is shown, and its session is asked for.
    pub open spec fn selected_tab(self, key: KeyView) -> App {
        let cleared = self.without_saved_transcript();
        match find(self.tabs@, tab_with(key)) {
            Some(tab) => App {
                pending_target: Some(tab),
                tab_overflow_open: false,
                ..cleared.showing(tab)
            },
            None => cleared,
        }
    }

    fn show_tab(&mut self, tab: ScopedTarget)
        ensures
            *final(self) == (App { pending_target: Some(tab), ..old(self).showing(tab) }),
    {
        self.workspace_id = Some(tab.target.workspace_id.clone());
        self.selected_host = tab.key.host_id.clone();
        self.active_target = Some(tab.clone());
        self.pending_target = Some(tab);
    }

    /// Chooses the tab of a session.
    pub fn select_tab(&mut self, key: &SessionKey)
        ensures
            *final(self) == old(self).selected_tab(key@),
    {
        let tab: Option<ScopedTarget> = match find_tab(&self.tabs, key) {
            Some(at) => Some(self.tabs[at].clone()),
            None => None,
        };
        self.clear_saved_transcript();
        if let Some(tab) = tab {
            self.show_tab(tab);
            self.tab_overflow_open = false;
        }
    }

    /// The session whose tab stands a number of steps after the one that is shown.
    pub open spec fn next_tab(self, delta: isize) -> Option<SessionKey> {
        match self.active_target {
            Some(active) => {
                let at = position(self.tabs@, tab_with(active.key@), 0);
                if at < self.tabs@.len() {
                    Some(self.tabs@[stepped(at, delta, self.tabs@.len() as int)].key)
                } else {
                    None
                }
            },
            None => None,
        }
    }

    fn find_next_tab(&self, delta: isize) -> (key: Option<SessionKey>)
        ensures
            key == self.next_tab(delta),
    {
        let active = match &self.active_target {
            Some(active) => active,
            None => return None,
        };
        match find_tab(&self.tabs, &active.key) {
            Some(at) => {
                let next: usize = step(at, delta, self.tabs.len());
                Some(self.tabs[next].key.clone())
            },
            None => None,
        }
    }

    /// The tab a number of steps after the one that is shown is chosen.
    pub open spec fn selected_next_tab(self, delta: isize) -> App {
        match self.next_tab(delta) {
            Some(key) => self.selected_tab(key@),
            None => self,
        }
    }

    /// Chooses the tab a number of steps after the one that is shown.
    pub fn select_next_tab(&mut self, delta: isize)
        ensures
            *final(self) == old(self).selected_next_tab(delta),
    {
        if let Some(key) = self.find_next_tab(delta) {
            self.select_tab(&key);
        }
    }

    /// What closing the tab that is shown does.
    pub open spec fn closed_active_tab(self, after: App) -> bool {
        match self.active_target {
            Some(active) => self.closed_tab(after, active.key@),
            None => after == self,
        }
    }

    /// Closes the tab that is shown.
    pub fn close_active_tab(&mut self)
        ensures
            old(self).closed_active_tab(*final(self)),
    {
        let key: SessionKey = match &self.active_target {
            Some(active) => active.key.clone(),
            None => return,
        };
        self.close_tab(&key);
    }

    /// Whether the tab of a session is the one that is shown.
    pub open spec fn shows(self, key: KeyView) -> bool {
        match self.active_target {
            Some(active) => active.key@ == key,
            None => false,
        }
    }

    fn is_shown(&self, key: &SessionKey) -> (yes: bool)
        ensures
            yes == self.shows(key@),
    {
        match &self.active_target {
            Some(active) => active.key == *key,
            None => false,
        }
    }

    /// The state with other tabs.
    pub open spec fn with_tabs(
        self,
        tabs: Vec<ScopedTarget>,
        tab_presentations: Vec<(SessionKey, TabPresentation)>,
    ) -> App {
        App { tabs, tab_presentations, tab_overflow_open: false, ..self }
    }

    /// What taking the tab of a session out does.
    pub open spec fn dropped_tab(self, after: App, at: int, key: KeyView) -> bool {
        &&& after.tabs@ == self.tabs@.remove(at)
        &&& presented(after.tab_presentations@) == presented(self.tab_presentations@).remove(key)
        &&& after == self.with_tabs(after.tabs, after.tab_presentations)
    }

    /// What closing the tab of a session does. Where it was shown, its neighbour is shown in its
    /// place; where it was the last one, the leader of the workspace is, from the spine.
    pub open spec fn closed_tab(self, after: App, key: KeyView) -> bool {
        let at = position(self.tabs@, tab_with(key), 0);
        if at >= self.tabs@.len() {
            after == self
        } else if !self.shows(key) {
            self.dropped_tab(after, at, key)
        } else {
            let left = self.with_tabs(after.tabs, after.tab_presentations);
            &&& self.dropped_tab(left, at, key)
            &&& left.left_tab(after, neighbour(left.tabs@, at))
        }
    }

    fn drop_tab(&mut self, at: usize, key: &SessionKey)
        requires
            at < old(self).tabs@.len(),
        ensures
            old(self).dropped_tab(*final(self), at as int, key@),
    {
        let tabs = remove_tab(&self.tabs, at);
        let list = without(&self.tab_presentations, key);
        self.tabs = tabs;
        self.tab_presentations = list;
        self.tab_overflow_open = false;
    }

    fn drop_shown_tab(&mut self, at: usize, key: &SessionKey)
        requires
            at < old(self).tabs@.len(),
        ensures
            ({
                let left = old(self).with_tabs(final(self).tabs, final(self).tab_presentations);
                &&& old(self).dropped_tab(left, at as int, key@)
                &&& left.left_tab(*final(self), neighbour(left.tabs@, at as int))
            }),
    {
        self.drop_tab(at, key);
        let next = find_neighbour(&self.tabs, at);
        self.leave_tab(next);
    }

    /// What leaving a tab for its neighbour does.
    pub open spec fn left_tab(self, after: App, next: Option<ScopedTarget>) -> bool {
        let cleared = self.without_saved_transcript();
        match next {
            Some(next) => after == (App { pending_target: Some(next), ..cleared.showing(next) }),
            None => {
                &&& optional_scoped(after.pending_target) == self.leader()
                &&& after == (App {
                    active_target: after.pending_target,
                    pending_target: after.pending_target,
                    nav_focused: true,
                    ..cleared
                })
            },
        }
    }

    fn leave_tab(&mut self, next: Option<ScopedTarget>)
        ensures
            old(self).left_tab(*final(self), next),
    {
        match next {
            Some(next) => {
                self.clear_saved_transcript();
                self.show_tab(next);
            },
            None => self.leave_last_tab(),
        }
    }

    fn leave_last_tab(&mut self)
        ensures
            old(self).left_tab(*final(self), None),
    {
        let leader = self.leader_target();
        let copy: Option<ScopedTarget> = match &leader {
            Some(target) => Some(target.clone()),
            None => None,
        };
        self.clear_saved_transcript();
        self.active_target = copy;
        self.pending_target = leader;
        self.nav_focused = true;
    }

    /// Closes the tab of a session.
    pub fn close_tab(&mut self, key: &SessionKey)
        ensures
            old(self).closed_tab(*final(self), key@),
    {
        let at: usize = match find_tab(&self.tabs, key) {
            Some(at) => at,
            None => return,
        };
        if self.is_shown(key) {
            self.drop_shown_tab(at, key);
        } else {
            self.drop_tab(at, key);
        }
    }

    /// The session whose tab lies under a point.
    pub fn tab_at(&self, point: (u16, u16)) -> (key: Option<SessionKey>)
        ensures
            key == hit(self.tab_hitboxes@, point),
    {
        key_at(&self.tab_hitboxes, point)
    }

    /// The session whose tab is closed by the sign under a point.
    pub fn tab_close_at(&self, point: (u16, u16)) -> (key: Option<SessionKey>)
        ensures
            key == hit(self.tab_close_hitboxes@, point),
    {
        key_at(&self.tab_close_hitboxes, point)
    }

    /// Whether the sign for more tabs lies under a point.
    pub fn overflow_at(&self, point: (u16, u16)) -> (yes: bool)
        ensures
            yes == (match self.overflow_hitbox {
                Some(area) => area.holds(point),
                None => false,
            }),
    {
        match self.overflow_hitbox {
            Some(area) => area.contains(point),
            None => false,
        }
    }

    /// The session whose row in the list of more tabs lies under a point.
    pub fn overflow_tab_at(&self, point: (u16, u16)) -> (key: Option<SessionKey>)
        ensures
            key == hit(self.overflow_tab_hitboxes@, point),
    {
        key_at(&self.overflow_tab_hitboxes, point)
    }

    /// Opens or closes the list of more tabs.
    pub fn toggle_tab_overflow(&mut self)
        ensures
            *final(self) == (App {
                tab_overflow_open: !old(self).tab_overflow_open,
                ..*old(self)
            }),
    {
        self.tab_overflow_open = !self.tab_overflow_open;
    }

    /// The cursor moved in the list of more tabs.
    pub open spec fn moved_overflow_cursor(self, delta: isize) -> App {
        if self.hidden_tab_ids@.len() > 0 {
            App {
                tab_overflow_cursor: moved(
                    self.tab_overflow_cursor,
                    delta,
                    (self.hidden_tab_ids@.len() - 1) as usize,
                ),
                ..self
            }
        } else {
            self
        }
    }

    /// Moves the cursor in the list of more tabs.
    pub fn move_overflow_cursor(&mut self, delta: isize)
        ensures
            *final(self) == old(self).moved_overflow_cursor(delta),
    {
        let count: usize = self.hidden_tab_ids.len();
        if count > 0 {
            self.tab_overflow_cursor = move_within(self.tab_overflow_cursor, delta, count - 1);
        }
    }

    /// The tab at the cursor in the list of more tabs is chosen.
    pub open spec fn selected_overflow_tab(self) -> App {
        if self.tab_overflow_cursor < self.hidden_tab_ids@.len() {
            self.selected_tab(self.hidden_tab_ids@[self.tab_overflow_cursor as int]@)
        } else {
            self
        }
    }

    /// Chooses the tab at the cursor in the list of more tabs.
    pub fn select_overflow_cursor(&mut self)
        ensures
            *final(self) == old(self).selected_overflow_tab(),
    {
        if self.tab_overflow_cursor < self.hidden_tab_ids.len() {
            let key = self.hidden_tab_ids[self.tab_overflow_cursor].clone();
            self.select_tab(&key);
        }
    }

    /// The row of the spine under a point.
    pub fn row_at(&self, point: (u16, u16)) -> (row: Option<usize>)
        ensures
            row == hit(self.row_hitboxes@, point),
    {
        match find_place(&self.row_hitboxes, point) {
            Some(at) => Some(self.row_hitboxes[at].1),
            None => None,
        }
    }

    /// Whether the status filter lies under a point.
    pub fn status_filter_at(&self, point: (u16, u16)) -> (yes: bool)
        ensures
            yes == (match self.status_filter_hitbox {
                Some(area) => area.holds(point),
                None => false,
            }),
    {
        match self.status_filter_hitbox {
            Some(area) => area.contains(point),
            None => false,
        }
    }

    /// The name of the workspace at the top of the screen.
    pub fn header_workspace_name(&self) -> (name: &str)
        ensures
            name@ == header_workspace(self.snapshot, self.workspace()),
    {
        match (&self.snapshot, &self.workspace_id) {
            (Some(snapshot), Some(id)) => match find_workspace(&snapshot.workspaces, id) {
                Some(at) => snapshot.workspaces[at].name.as_str(),
                None => "Open project",
            },
            _ => "Open project",
        }
    }

    /// The name of the machine at the top of the screen.
    pub fn header_machine_name(&self) -> (name: &str)
        ensures
            name@ == header_machine(self.snapshot),
    {
        match &self.snapshot {
            Some(snapshot) => snapshot.machine.name.as_str(),
            None => "local",
        }
    }

    /// Whether the name of the machine, at the top of the screen, lies under a point. The place of
    /// the name is counted in bytes.
    pub open spec fn header_holds(self, point: (u16, u16)) -> bool {
        let start = 8 + encode_utf8(header_workspace(self.snapshot, self.workspace())).len();
        let length = encode_utf8(header_machine(self.snapshot)).len() + 7;
        point.1 == 0 && start <= point.0 < start + length
    }

    /// Whether the name of the machine, at the top of the screen, lies under a point.
    pub fn host_header_at(&self, point: (u16, u16)) -> (yes: bool)
        ensures
            yes == self.header_holds(point),
    {
        let workspace: u128 = self.header_workspace_name().as_bytes().len() as u128;
        let machine: u128 = self.header_machine_name().as_bytes().len() as u128;
        let start: u128 = 8 + workspace;
        let column: u128 = point.0 as u128;
        point.1 == 0 && start <= column && column < start + machine + 7
    }
}

} // verus!
