//! The event handler: the single owner of hotkey bindings, the live click
//! configuration and the cancellation handles of running click tasks.
use vstd::prelude::*;
use std::collections::HashMap;

use crate::channel::{oneshot_pair, oneshot_send};
use crate::events::{ClickType, HotkeyEvent};

verus! {

broadcast use vstd::std_specs::hash::group_hash_axioms;

/// One registered hotkey: the button it clicks and whether a click task runs.
#[derive(Clone, Copy, Debug, PartialEq, Eq, Structural)]
pub struct HotkeyInfo {
    pub click_type: ClickType,
    pub status: bool,
}

/// The click configuration that tasks started from now on take over.
#[derive(Clone, Copy, Debug, PartialEq, Eq, Structural)]
pub struct Config {
    /// Clicks per run; zero means unbounded.
    pub times: usize,
    /// Wait between two clicks, in milliseconds.
    pub duration: u64,
}

impl Default for Config {
    fn default() -> (r: Config)
        ensures
            r == default_config(),
    {
        Config { times: 0, duration: 50 }
    }
}

pub open spec fn default_config() -> Config {
    Config { times: 0, duration: 50 }
}

/// What a click task is started with: a copy of the configuration taken at
/// start time, so later changes do not reach it.
#[derive(Clone, Copy, Debug, PartialEq, Eq, Structural)]
pub struct TaskStart {
    pub id: i32,
    pub click_type: ClickType,
    pub times: usize,
    pub duration: u64,
}

/// A click task to launch: its parameters and the receiving end of its
/// cancellation channel.
pub struct ClickJob {
    pub start: TaskStart,
    pub cancel: tokio::sync::oneshot::Receiver<bool>,
}

/// What handling one event asks of the surroundings: a status to report to
/// the observer and a click task to launch, each if any.
pub struct Reaction {
    pub notify: Option<bool>,
    pub job: Option<ClickJob>,
}

/// The mathematical state of the handler. `tasks` holds the ids that have an
/// active cancellation handle.
pub struct HandlerState {
    pub bindings: Map<i32, HotkeyInfo>,
    pub tasks: Set<i32>,
    pub config: Config,
}

/// One step of the handler on the model: the next state, the status reported
/// to the observer, and the task started.
pub struct Transition {
    pub next: HandlerState,
    pub notify: Option<bool>,
    pub start: Option<TaskStart>,
}

impl View for Reaction {
    type V = (Option<bool>, Option<TaskStart>);

    open spec fn view(&self) -> (Option<bool>, Option<TaskStart>) {
        (
            self.notify,
            match self.job {
                Some(j) => Some(j.start),
                None => None,
            },
        )
    }
}

/// Every task handle belongs to a binding whose status is on, and every
/// binding whose status is on has a task handle.
pub open spec fn handler_wf(s: HandlerState) -> bool {
    forall|id: i32|
        #[trigger] s.tasks.contains(id) <==> (s.bindings.contains_key(id)
            && s.bindings[id].status)
}

pub open spec fn unchanged(s: HandlerState) -> Transition {
    Transition { next: s, notify: None, start: None }
}

/// Sets the status of a bound id, reports it, and starts or cancels its task.
pub open spec fn toggle_to(s: HandlerState, id: i32, status: bool) -> Transition {
    let info = s.bindings[id];
    Transition {
        next: HandlerState {
            bindings: s.bindings.insert(id, HotkeyInfo { click_type: info.click_type, status }),
            tasks: if status {
                s.tasks.insert(id)
            } else {
                s.tasks.remove(id)
            },
            config: s.config,
        },
        notify: Some(status),
        start: if status {
            Some(
                TaskStart {
                    id,
                    click_type: info.click_type,
                    times: s.config.times,
                    duration: s.config.duration,
                },
            )
        } else {
            None
        },
    }
}

/// How the handler reacts to one event. Events for an id that is not bound
/// change nothing. Registering an id anew leaves its binding idle, so a task
/// still running for it is cancelled: a handle is held exactly while the
/// binding's status is on.
pub open spec fn step(s: HandlerState, e: HotkeyEvent) -> Transition {
    match e {
        HotkeyEvent::Register { id, click_type } => Transition {
            next: HandlerState {
                bindings: s.bindings.insert(id, HotkeyInfo { click_type, status: false }),
                tasks: s.tasks.remove(id),
                config: s.config,
            },
            notify: None,
            start: None,
        },
        HotkeyEvent::Unregister { id } => Transition {
            next: HandlerState {
                bindings: s.bindings.remove(id),
                tasks: s.tasks.remove(id),
                config: s.config,
            },
            notify: None,
            start: None,
        },
        HotkeyEvent::HotKeyPressed { id } => if s.bindings.contains_key(id) {
            toggle_to(s, id, !s.bindings[id].status)
        } else {
            unchanged(s)
        },
        HotkeyEvent::ManualToggle { id, start } => if s.bindings.contains_key(id)
            && s.bindings[id].status != start {
            toggle_to(s, id, start)
        } else {
            unchanged(s)
        },
        HotkeyEvent::ConfigChange { times, duration } => Transition {
            next: HandlerState {
                bindings: s.bindings,
                tasks: s.tasks,
                config: Config { times, duration },
            },
            notify: None,
            start: None,
        },
        HotkeyEvent::TaskCompleted { id } => Transition {
            next: HandlerState {
                bindings: if s.bindings.contains_key(id) {
                    s.bindings.insert(
                        id,
                        HotkeyInfo { click_type: s.bindings[id].click_type, status: false },
                    )
                } else {
                    s.bindings
                },
                tasks: s.tasks.remove(id),
                config: s.config,
            },
            notify: None,
            start: None,
        },
    }
}

/// Processes events one at a time; see `step` for the effect of each.
pub struct KeyboardEventHandler {
    hotkey_map: HashMap<i32, HotkeyInfo>,
    oneshot_map: HashMap<i32, tokio::sync::oneshot::Sender<bool>>,
    config: Config,
}

impl View for KeyboardEventHandler {
    type V = HandlerState;

    closed spec fn view(&self) -> HandlerState {
        HandlerState {
            bindings: self.hotkey_map@,
            tasks: self.oneshot_map@.dom(),
            config: self.config,
        }
    }
}

impl KeyboardEventHandler {
    /// A handler with no bindings, no tasks and the default configuration.
    pub fn new() -> (r: KeyboardEventHandler)
        ensures
            r@.bindings == Map::<i32, HotkeyInfo>::empty(),
            r@.tasks == Set::<i32>::empty(),
            r@.config == default_config(),
            handler_wf(r@),
    {
        let r = KeyboardEventHandler {
            hotkey_map: HashMap::new(),
            oneshot_map: HashMap::new(),
            config: Config::default(),
        };
        assert(r@.tasks =~= Set::<i32>::empty());
        r
    }

    /// The configuration that the next started task takes over.
    pub fn config(&self) -> (r: Config)
        ensures
            r == self@.config,
    {
        self.config
    }

    /// The binding of `id`, if it is registered.
    pub fn binding(&self, id: i32) -> (r: Option<HotkeyInfo>)
        ensures
            r == (if self@.bindings.contains_key(id) {
                Some(self@.bindings[id])
            } else {
                None
            }),
    {
        match self.hotkey_map.get(&id) {
            Some(info) => Some(*info),
            None => None,
        }
    }

    /// Whether a cancellation handle is held for `id`.
    pub fn has_task(&self, id: i32) -> (r: bool)
        ensures
            r == self@.tasks.contains(id),
    {
        self.oneshot_map.contains_key(&id)
    }

    fn config_change(&mut self, times: usize, duration: u64)
        ensures
            final(self).hotkey_map@ == old(self).hotkey_map@,
            final(self).oneshot_map@ == old(self).oneshot_map@,
            final(self).config == (Config { times, duration }),
    {
        self.config.times = times;
        self.config.duration = duration;
    }

    /// Drops the handle of `id`, if any, after signalling cancellation on it.
    fn oneshot_clean(&mut self, id: i32)
        ensures
            final(self).hotkey_map@ == old(self).hotkey_map@,
            final(self).oneshot_map@ == old(self).oneshot_map@.remove(id),
            final(self).config == old(self).config,
    {
        if let Some(tx) = self.oneshot_map.remove(&id) {
            oneshot_send(tx, true);
        }
    }

    /// Makes a fresh cancellation channel for `id`, keeps its sender as the
    /// task handle and hands out the job to launch.
    fn start_clicking(&mut self, id: i32, click_type: ClickType) -> (r: ClickJob)
        ensures
            final(self).hotkey_map@ == old(self).hotkey_map@,
            final(self).oneshot_map@.dom() == old(self).oneshot_map@.dom().insert(id),
            final(self).config == old(self).config,
            r.start == (TaskStart {
                id,
                click_type,
                times: old(self).config.times,
                duration: old(self).config.duration,
            }),
    {
        let (tx, rx) = oneshot_pair();
        let start = TaskStart {
            id,
            click_type,
            times: self.config.times,
            duration: self.config.duration,
        };
        self.oneshot_map.insert(id, tx);
        ClickJob { start, cancel: rx }
    }

    /// Sets the status of the bound `id` to `status`, cancelling or starting
    /// its task.
    fn set_status(&mut self, id: i32, info: HotkeyInfo, status: bool) -> (r: Reaction)
        requires
            old(self)@.bindings.contains_key(id),
            old(self)@.bindings[id] == info,
        ensures
            final(self)@ == toggle_to(old(self)@, id, status).next,
            r@ == (toggle_to(old(self)@, id, status).notify, toggle_to(old(self)@, id, status).start),
    {
        self.hotkey_map.insert(id, HotkeyInfo { click_type: info.click_type, status });
        if status {
            let job = self.start_clicking(id, info.click_type);
            proof {
                assert(self@.tasks =~= old(self)@.tasks.insert(id));
            }
            Reaction { notify: Some(status), job: Some(job) }
        } else {
            self.oneshot_clean(id);
            proof {
                assert(self@.tasks =~= old(self)@.tasks.remove(id));
            }
            Reaction { notify: Some(status), job: None }
        }
    }

    fn handle_hotkey_pressed(&mut self, id: i32) -> (r: Reaction)
        ensures
            final(self)@ == step(old(self)@, HotkeyEvent::HotKeyPressed { id }).next,
            r@ == (
                step(old(self)@, HotkeyEvent::HotKeyPressed { id }).notify,
                step(old(self)@, HotkeyEvent::HotKeyPressed { id }).start,
            ),
    {
        match self.hotkey_map.get(&id) {
            Some(info) => {
                let info = *info;
                self.set_status(id, info, !info.status)
            },
            None => Reaction { notify: None, job: None },
        }
    }

    fn handle_manual_toggle(&mut self, id: i32, start: bool) -> (r: Reaction)
        ensures
            final(self)@ == step(old(self)@, HotkeyEvent::ManualToggle { id, start }).next,
            r@ == (
                step(old(self)@, HotkeyEvent::ManualToggle { id, start }).notify,
                step(old(self)@, HotkeyEvent::ManualToggle { id, start }).start,
            ),
    {
        match self.hotkey_map.get(&id) {
            Some(info) => {
                let info = *info;
                if info.status == start {
                    Reaction { notify: None, job: None }
                } else {
                    self.set_status(id, info, start)
                }
            },
            None => Reaction { notify: None, job: None },
        }
    }

    /// Handles one event: updates the bindings, the configuration and the
    /// task handles, and says what to report and what task to launch.
    pub fn handle_event(&mut self, event: HotkeyEvent) -> (r: Reaction)
        ensures
            final(self)@ == step(old(self)@, event).next,
            r@ == (step(old(self)@, event).notify, step(old(self)@, event).start),
    {
        match event {
            HotkeyEvent::Register { id, click_type } => {
                self.hotkey_map.insert(id, HotkeyInfo { click_type, status: false });
                self.oneshot_clean(id);
                Reaction { notify: None, job: None }
            },
            HotkeyEvent::Unregister { id } => {
                self.hotkey_map.remove(&id);
                self.oneshot_clean(id);
                Reaction { notify: None, job: None }
            },
            HotkeyEvent::HotKeyPressed { id } => self.handle_hotkey_pressed(id),
            HotkeyEvent::ConfigChange { times, duration } => {
                self.config_change(times, duration);
                Reaction { notify: None, job: None }
            },
            HotkeyEvent::ManualToggle { id, start } => self.handle_manual_toggle(id, start),
            HotkeyEvent::TaskCompleted { id } => {
                self.oneshot_map.remove(&id);
                match self.hotkey_map.get(&id) {
                    Some(info) => {
                        let info = *info;
                        self.hotkey_map.insert(
                            id,
                            HotkeyInfo { click_type: info.click_type, status: false },
                        );
                    },
                    None => {},
                }
                Reaction { notify: None, job: None }
            },
        }
    }
}

} // verus!
