//! The panes of the client: which session is shown, and what becomes of one that cannot be.

use vstd::prelude::*;

use crate::app::App;
use crate::host_table::{get_host, standing};
use crate::hosts::{HostId, HostTransport, KeyView, ScopedTarget, SessionKey};
use crate::pointer::{bracketed_paste, pasted};
use crate::protocol::Snapshot;
use crate::seqs::find;
use crate::sets::{keep_key, keys_in, leave_key};
use crate::shell::Shell;
use crate::strip::{has_key, lists_key};
use crate::tabs::{find_tab, tab_with, with_tab};
use crate::text::{concat2, concat4, optional, starts_with};

verus! {

/// A pane that is to be started for a session.
pub struct NewPane {
    pub target: ScopedTarget,
    /// What is to be typed into it once it is ready.
    pub draft: Option<String>,
    /// Whether it takes the place of one whose connection ended.
    pub replacing: bool,
    pub transport: HostTransport,
}

/// What a pane that could not be started tells.
pub open spec fn unavailable() -> Seq<char> {
    "Pi pane unavailable"@
}

/// Whether an error says that a pane could not be started.
pub open spec fn tells_unavailable(error: Option<String>) -> bool {
    match error {
        Some(error) => unavailable().is_prefix_of(error@),
        None => false,
    }
}

impl App {
    /// What taking the session that was asked for does, with the draft that goes with it.
    #[verifier::opaque]
    pub open spec fn took_target(self, after: App) -> bool {
        after == (App {
            pending_target: None,
            pending_followup_draft: if self.pending_target is Some {
                None
            } else {
                self.pending_followup_draft
            },
            ..self
        })
    }

    fn take_wanted(&mut self) -> (wanted: Option<(ScopedTarget, Option<String>)>)
        requires
            old(self).wf(),
        ensures
            wanted == (match old(self).pending_target {
                Some(target) => Some((target, old(self).pending_followup_draft)),
                None => None,
            }),
            old(self).took_target(*final(self)),
            final(self).wf(),
    {
        proof {
            reveal(App::took_target);
        }
        match self.take_target() {
            Some(target) => {
                let draft = self.take_followup_draft();
                return Some((target, draft));
            },
            None => {
                return None;
            },
        }
    }

    /// An error that says that a pane could not be started is gone once one that works is shown.
    pub open spec fn without_pane_error(self, works: bool) -> App {
        if works && tells_unavailable(self.error) {
            App { error: None, ..self }
        } else {
            self
        }
    }

    fn clear_pane_error(&mut self, works: bool)
        ensures
            *final(self) == old(self).without_pane_error(works),
    {
        let stands: bool = match &self.error {
            Some(error) => starts_with(error, "Pi pane unavailable"),
            None => false,
        };
        if works && stands {
            self.error = None;
            return ;
        }
    }

    /// What opening the tab of a session does.
    #[verifier::opaque]
    pub open spec fn added_tab(self, after: App, target: ScopedTarget) -> bool {
        &&& after.tabs@ == with_tab(self.tabs@, target)
        &&& after == (App { tabs: after.tabs, ..self.without_saved_transcript().showing(target) })
    }

    /// What the tabs of a machine of which a snapshot is known show; `None` where none is known.
    #[verifier::opaque]
    pub open spec fn synced_known(self, after: App, host: Seq<char>, snapshot: Option<Snapshot>) -> bool {
        match snapshot {
            Some(snapshot) => self.synced_tabs(after, host, snapshot),
            None => after == self,
        }
    }

    /// What opening the tab of a session does, with what is known of its machine.
    pub open spec fn opened_tab(
        self,
        after: App,
        target: ScopedTarget,
        snapshot: Option<Snapshot>,
    ) -> bool {
        exists|mid: App| #[trigger]
            self.added_tab(mid, target) && mid.synced_known(after, target.key.host_id@, snapshot)
    }

    fn add(&mut self, target: ScopedTarget)
        requires
            old(self).wf(),
        ensures
            old(self).added_tab(*final(self), target),
            final(self).wf(),
    {
        proof {
            reveal(App::added_tab);
        }
        self.add_tab(target);
    }

    fn sync_known(&mut self, host_id: &HostId, snapshot: Option<&Snapshot>)
        requires
            old(self).wf(),
        ensures
            old(self).synced_known(
                *final(self),
                host_id@,
                match snapshot {
                    Some(snapshot) => Some(*snapshot),
                    None => None,
                },
            ),
            final(self).wf(),
    {
        proof {
            reveal(App::synced_known);
        }
        if let Some(snapshot) = snapshot {
            self.sync_tab_presentations(host_id, snapshot);
            return ;
        }
    }

    pub(crate) fn open_tab(&mut self, target: ScopedTarget, snapshot: Option<&Snapshot>)
        requires
            old(self).wf(),
        ensures
            old(self).opened_tab(
                *final(self),
                target,
                match snapshot {
                    Some(snapshot) => Some(*snapshot),
                    None => None,
                },
            ),
            final(self).wf(),
    {
        let host_id: HostId = target.key.host_id.clone();
        self.add(target);
        let ghost mid = *self;
        self.sync_known(&host_id, snapshot);
    }

    /// What going back to a tab does: it is shown with what is known of its machine, and its session
    /// is not asked for, as its pane is there.
    #[verifier::opaque]
    pub open spec fn went_back(self, after: App, key: KeyView, host_id: HostId, snapshot: Option<Snapshot>) -> bool {
        let back = App { pending_target: None, ..self.selected_tab(key) };
        match snapshot {
            Some(snapshot) => exists|copy: Snapshot|
                snapshot.same(copy) && #[trigger] back.replaced_snapshot(after, host_id, copy),
            None => after == back,
        }
    }

    fn go_back(&mut self, key: &SessionKey, snapshot: Option<&Snapshot>)
        requires
            old(self).wf(),
        ensures
            old(self).went_back(
                *final(self),
                key@,
                key.host_id,
                match snapshot {
                    Some(snapshot) => Some(*snapshot),
                    None => None,
                },
            ),
            final(self).wf(),
    {
        proof {
            reveal(App::went_back);
        }
        self.select_tab(key);
        let _ = self.take_target();
        let ghost back = App { pending_target: None, ..old(self).selected_tab(key@) };
        assert(*self == back);
        if let Some(snapshot) = snapshot {
            let copy = snapshot.clone();
            let ghost shown = copy;
            self.replace_snapshot_for_host(&key.host_id, copy);
            assert(snapshot.same(shown) && back.replaced_snapshot(*self, key.host_id, shown));
            return ;
        }
    }
}

impl Shell {
    /// What showing the pane of a session does. A draft for it is kept until that session is ready.
    pub open spec fn showed_pane(
        self,
        after: Shell,
        target: ScopedTarget,
        draft: Option<String>,
    ) -> bool {
        &&& after.active == target.key
        &&& after.draft == (match draft {
            Some(draft) => Some((target.key, draft)),
            None => self.draft,
        })
        &&& after == (Shell { app: after.app, active: after.active, draft: after.draft, ..self })
        &&& self.app.without_pane_error(!lists_key(self.failed@, target.key@)).opened_tab(
            after.app,
            target,
            self.snapshot_of(target.key.host_id@),
        )
    }

    fn show_pane(&mut self, target: ScopedTarget, draft: Option<String>)
        requires
            old(self).wf(),
        ensures
            old(self).showed_pane(*final(self), target, draft),
            final(self).wf(),
    {
        let key: SessionKey = target.key.clone();
        let works: bool = !has_key(&self.failed, &key);
        self.app.clear_pane_error(works);
        let snapshot = get_host(&self.snapshots, &key.host_id);
        self.app.open_tab(target, snapshot);
        if let Some(draft) = draft {
            self.draft = Some((key.clone(), draft));
        }
        self.active = key;
    }

    /// The tab of the session whose pane is shown, where it has one.
    pub open spec fn previous(self) -> Option<ScopedTarget> {
        if lists_key(self.drivers@, self.active@) {
            find(self.app.tabs@, tab_with(self.active@))
        } else {
            None
        }
    }

    fn has_previous(&self) -> (yes: bool)
        ensures
            yes == (self.previous() is Some),
    {
        has_key(&self.drivers, &self.active) && find_tab(&self.app.tabs, &self.active).is_some()
    }

    /// What a session that cannot be opened does: that is told, and the tab that was shown is shown
    /// again.
    pub open spec fn stayed(self, after: Shell, name: Seq<char>, error: Seq<char>) -> bool {
        &&& after == (Shell { app: after.app, ..self })
        &&& exists|told: App| #[trigger]
            self.app.told(told, "cannot open Pi target "@ + name + ": "@ + error) && if self.previous() is Some {
                told.went_back(
                    after.app,
                    self.active@,
                    self.active.host_id,
                    self.snapshot_of(self.active.host_id@),
                )
            } else {
                after.app == told
            }
    }

    fn stay(&mut self, name: &str, error: &str)
        requires
            old(self).wf(),
        ensures
            old(self).stayed(*final(self), name@, error@),
            final(self).wf(),
    {
        let back: bool = self.has_previous();
        let message = concat4("cannot open Pi target ", name, ": ", error);
        self.app.tell(&message);
        let ghost told = self.app;
        if back {
            let snapshot = get_host(&self.snapshots, &self.active.host_id);
            self.app.go_back(&self.active, snapshot);
            return ;
        }
    }

    /// What turning to a session does. One with a pane that works is shown. For any other a pane is
    /// to be started, where its machine is connected.
    #[verifier::opaque]
    pub open spec fn turned_to_target(
        self,
        after: Shell,
        target: ScopedTarget,
        draft: Option<String>,
        pane: Option<NewPane>,
    ) -> bool {
        let replacing = lists_key(self.stale@, target.key@);
        if !replacing && lists_key(self.drivers@, target.key@) {
            pane is None && self.showed_pane(after, target, draft)
        } else if self.connected(target.key.host_id@) {
            &&& after == self
            &&& pane == Some(
                NewPane {
                    target,
                    draft,
                    replacing,
                    transport: standing(self.runtimes@)[target.key.host_id@].transport,
                },
            )
        } else {
            pane is None && self.stayed(after, target.target.name@, "target host missing"@)
        }
    }

    fn turn_to_target(&mut self, target: ScopedTarget, draft: Option<String>) -> (pane: Option<
        NewPane,
    >)
        requires
            old(self).wf(),
        ensures
            old(self).turned_to_target(*final(self), target, draft, pane),
            final(self).wf(),
    {
        proof {
            reveal(Shell::turned_to_target);
        }
        let replacing: bool = has_key(&self.stale, &target.key);
        if !replacing && has_key(&self.drivers, &target.key) {
            self.show_pane(target, draft);
            return None;
        }
        let transport: HostTransport = match get_host(&self.runtimes, &target.key.host_id) {
            Some(runtime) => runtime.transport.clone(),
            None => {
                self.stay(&target.target.name, "target host missing");
                return None;
            },
        };
        Some(NewPane { target, draft, replacing, transport })
    }

    /// What a session that was asked for does.
    pub open spec fn opened_target(self, after: Shell, pane: Option<NewPane>) -> bool {
        match self.app.pending_target {
            None => {
                &&& pane is None
                &&& self.app.took_target(after.app)
                &&& after == (Shell { app: after.app, ..self })
            },
            Some(target) => exists|taken: Shell| #[trigger]
                self.took_target(taken) && taken.turned_to_target(
                    after,
                    target,
                    self.app.pending_followup_draft,
                    pane,
                ),
        }
    }

    /// What taking the session that was asked for does.
    #[verifier::opaque]
    pub open spec fn took_target(self, after: Shell) -> bool {
        self.app.took_target(after.app) && after == (Shell { app: after.app, ..self })
    }

    fn take_wanted(&mut self) -> (wanted: Option<(ScopedTarget, Option<String>)>)
        requires
            old(self).wf(),
        ensures
            wanted == (match old(self).app.pending_target {
                Some(target) => Some((target, old(self).app.pending_followup_draft)),
                None => None,
            }),
            old(self).took_target(*final(self)),
            final(self).wf(),
    {
        proof {
            reveal(Shell::took_target);
        }
        self.app.take_wanted()
    }

    /// Turns to the session that was asked for. A pane that has to be started for it is returned;
    /// how that went is told with `start_pane` or `fail_pane`.
    pub fn open_target(&mut self) -> (pane: Option<NewPane>)
        requires
            old(self).wf(),
        ensures
            old(self).opened_target(*final(self), pane),
            final(self).wf(),
    {
        match self.take_wanted() {
            Some((target, draft)) => {
                let ghost taken = *self;
                return self.turn_to_target(target, draft);
            },
            None => {
                proof {
                    reveal(Shell::took_target);
                }
                return None;
            },
        }
    }

    /// What a pane that was started does: its session is no longer stale, and it is shown.
    #[verifier::opaque]
    pub open spec fn registered_pane(self, after: Shell, key: KeyView, replacing: bool) -> bool {
        &&& keys_in(after.drivers@) == keys_in(self.drivers@).insert(key)
        &&& keys_in(after.stale@) == (if replacing {
            keys_in(self.stale@).remove(key)
        } else {
            keys_in(self.stale@)
        })
        &&& keys_in(after.failed@) == (if replacing {
            keys_in(self.failed@).remove(key)
        } else {
            keys_in(self.failed@)
        })
        &&& after == (Shell {
            app: if replacing {
                App { error: None, ..self.app }
            } else {
                self.app
            },
            drivers: after.drivers,
            stale: after.stale,
            failed: after.failed,
            ..self
        })
    }

    fn register_pane(&mut self, key: &SessionKey, replacing: bool)
        requires
            old(self).wf(),
        ensures
            old(self).registered_pane(*final(self), key@, replacing),
            final(self).wf(),
    {
        proof {
            reveal(Shell::registered_pane);
        }
        keep_key(&mut self.drivers, key);
        if replacing {
            leave_key(&mut self.stale, key);
            leave_key(&mut self.failed, key);
            self.app.error = None;
            return ;
        }
    }

    /// What a pane that was started does.
    pub open spec fn started_pane(self, after: Shell, pane: NewPane) -> bool {
        exists|mid: Shell| #[trigger]
            self.registered_pane(mid, pane.target.key@, pane.replacing) && mid.showed_pane(
                after,
                pane.target,
                pane.draft,
            )
    }

    /// Takes in that a pane was started.
    pub fn start_pane(&mut self, pane: NewPane)
        requires
            old(self).wf(),
        ensures
            old(self).started_pane(*final(self), pane),
            final(self).wf(),
    {
        self.register_pane(&pane.target.key, pane.replacing);
        let ghost mid = *self;
        self.show_pane(pane.target, pane.draft);
    }

    /// What a pane that could not be started does. Where it was to take the place of one whose
    /// connection ended, its tab is shown all the same, and choosing it again tries once more; else
    /// the tab that was shown stays.
    #[verifier::opaque]
    pub open spec fn failed_pane(self, after: Shell, pane: NewPane, error: Seq<char>) -> bool {
        if pane.replacing {
            &&& keys_in(after.failed@) == keys_in(self.failed@).insert(pane.target.key@)
            &&& after == (Shell {
                app: after.app,
                failed: after.failed,
                active: pane.target.key,
                ..self
            })
            &&& exists|shown: App| #[trigger]
                self.app.opened_tab(
                    shown,
                    pane.target,
                    self.snapshot_of(pane.target.key.host_id@),
                ) && shown.told(
                    after.app,
                    "Pi pane unavailable — reselect the tab to retry: "@ + error,
                )
        } else {
            self.stayed(after, pane.target.target.name@, error)
        }
    }

    /// Takes in that a pane could not be started.
    pub fn fail_pane(&mut self, pane: NewPane, error: &str)
        requires
            old(self).wf(),
        ensures
            old(self).failed_pane(*final(self), pane, error@),
            final(self).wf(),
    {
        proof {
            reveal(Shell::failed_pane);
        }
        if !pane.replacing {
            self.stay(&pane.target.target.name, error);
            return ;
        }
        let key: SessionKey = pane.target.key.clone();
        keep_key(&mut self.failed, &key);
        let snapshot = get_host(&self.snapshots, &key.host_id);
        self.app.open_tab(pane.target, snapshot);
        let ghost shown = self.app;
        let message = concat2("Pi pane unavailable — reselect the tab to retry: ", error);
        self.app.tell(&message);
        self.active = key;
    }

    /// What a draft that waits does. It goes to the pane of its own session alone, once that is
    /// shown and ready; until then it is kept.
    pub open spec fn sent_draft(self, after: Shell, ready: bool, sent: Option<Seq<char>>) -> bool {
        match self.draft {
            None => sent is None && after == self,
            Some((key, draft)) => if lists_key(self.failed@, key@) {
                &&& sent is None
                &&& self.app.told(
                    after.app,
                    "Pi pane unavailable — reselect the tab to retry"@,
                )
                &&& after == (Shell { app: after.app, ..self })
            } else if key@ == self.active@ && ready {
                sent == Some(pasted(draft@)) && after == (Shell { draft: None, ..self })
            } else {
                sent is None && after == self
            },
        }
    }

    /// Hands the draft that waits out, as it is typed into the pane that is shown; `ready` says
    /// whether the session of the draft is.
    pub fn send_draft(&mut self, ready: bool) -> (sent: Option<String>)
        requires
            old(self).wf(),
        ensures
            old(self).sent_draft(*final(self), ready, optional(sent)),
            final(self).wf(),
    {
        let text: String = match &self.draft {
            None => return None,
            Some((key, draft)) => {
                if has_key(&self.failed, key) {
                    self.app.tell("Pi pane unavailable — reselect the tab to retry");
                    return None;
                }
                if *key != self.active || !ready {
                    return None;
                }
                bracketed_paste(draft)
            },
        };
        self.draft = None;
        Some(text)
    }

    /// Whether what a pane prints is searched for texts to copy: only the pane that is shown is.
    pub fn listens_to(&self, key: &SessionKey) -> (yes: bool)
        ensures
            yes == (key@ == self.active@ && !lists_key(self.failed@, key@)),
    {
        *key == self.active && !has_key(&self.failed, key)
    }

    /// Whether the pane that is shown could not be started.
    pub fn pane_has_failed(&self) -> (yes: bool)
        ensures
            yes == lists_key(self.failed@, self.active@),
    {
        has_key(&self.failed, &self.active)
    }
}

} // verus!
