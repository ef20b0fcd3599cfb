//! The engine state and its command surface.
//!
//! All commands are synchronous and total: every operation is specified as a
//! transition function of the model, applied to the state's view.  The caller
//! supplies a monotonic timestamp in seconds (`now`) to every time-dependent
//! operation; the engine itself never reads a clock.

use vstd::prelude::*;

use crate::model::{
    ConfigView, EventView, StateView, TimerView, countdown_of, due, events_of_due, find_timer,
    fired_events, idle_reading, idle_threshold_tr, idle_transition, idle_update_tr, initial_state,
    lock_tr, overlay_enter_tr, overlay_exit_tr, pause_tr, reconciled_timer, reset_all_tr,
    reset_task_tr, resume_tr, snooze_tr, sync_tr, tick_tr, timer_folded, timer_reset,
    timer_restarted, unlock_tr, wf,
};
use crate::task::{CountdownEntry, TaskConfig, TaskTimer, TickOutcome, TriggerEvent};

verus! {

/// The view of a sequence of timers.
pub open spec fn timers_view(timers: Seq<TaskTimer>) -> Seq<TimerView> {
    timers.map_values(|t: TaskTimer| t@)
}

/// The whole engine state: the task registry, the suspension ledger and the
/// idle tracker.  One instance lives for the whole process, shared between
/// the background tick and the command handlers.
pub struct TimerState {
    pub timers: Vec<TaskTimer>,
    pub paused: bool,
    pub system_locked: bool,
    /// Start of the suspension window shared by manual pause and system lock.
    pub pause_started_at: Option<u64>,
    pub overlay_active: bool,
    pub overlay_started_at: Option<u64>,
    pub idle_threshold_seconds: u64,
    pub is_idle: bool,
    pub idle_started_at: Option<u64>,
}

/// The view of an optional timestamp.
pub open spec fn opt_view(o: Option<u64>) -> Option<int> {
    match o {
        Some(v) => Some(v as int),
        None => None,
    }
}

impl View for TimerState {
    type V = StateView;

    open spec fn view(&self) -> StateView {
        StateView {
            timers: timers_view(self.timers@),
            paused: self.paused,
            system_locked: self.system_locked,
            pause_started_at: opt_view(self.pause_started_at),
            overlay_active: self.overlay_active,
            overlay_started_at: opt_view(self.overlay_started_at),
            idle_threshold: self.idle_threshold_seconds as int,
            is_idle: self.is_idle,
            idle_started_at: opt_view(self.idle_started_at),
        }
    }
}

impl TimerState {
    /// A fresh engine: no tasks, nothing suspended, the default idle
    /// threshold of five minutes.
    pub fn new() -> (r: Self)
        ensures
            r@ == initial_state(),
            wf(r@),
    {
        let r = TimerState {
            timers: Vec::new(),
            paused: false,
            system_locked: false,
            pause_started_at: None,
            overlay_active: false,
            overlay_started_at: None,
            idle_threshold_seconds: 300,
            is_idle: false,
            idle_started_at: None,
        };
        proof {
            assert(r@.timers =~= initial_state().timers);
            assert(r@ =~= initial_state());
        }
        r
    }

    /// Folds `dead` seconds of suspension into every timer's epoch.
    fn fold_all_timers(&mut self, dead: u64)
        ensures
            final(self)@ == (StateView {
                timers: old(self)@.timers.map_values(|t: TimerView| timer_folded(t, dead as int)),
                ..old(self)@
            }),
    {
        let ghost target = old(self)@.timers.map_values(|t: TimerView| timer_folded(t, dead as int));
        let n = self.timers.len();
        let mut out: Vec<TaskTimer> = Vec::new();
        for i in 0..n
            invariant
                n == self.timers.len(),
                *self == *old(self),
                out@.len() == i,
                target == old(self)@.timers.map_values(
                    |t: TimerView| timer_folded(t, dead as int),
                ),
                forall|j: int| 0 <= j < i ==> out@[j]@ == target[j],
        {
            let t = &self.timers[i];
            out.push(TaskTimer {
                config: t.config.clone(),
                epoch: t.epoch.saturating_add(dead),
                triggered: t.triggered,
                disabled_since: t.disabled_since,
            });
        }
        self.timers = out;
        proof {
            assert(final(self)@.timers =~= target);
        }
    }

    /// Engages the manual-pause suspension source; re-asserting an already
    /// active pause is a no-op.
    pub fn pause(&mut self, now: u64)
        ensures
            final(self)@ == pause_tr(old(self)@, now as int),
            wf(old(self)@) ==> wf(final(self)@),
    {
        if !self.paused {
            self.paused = true;
            if self.pause_started_at.is_none() {
                self.pause_started_at = Some(now);
            }
        }
    }

    /// Lifts the manual pause: the shared window's dead time is folded into
    /// every timer uniformly; a no-op when not paused.
    pub fn resume(&mut self, now: u64)
        ensures
            final(self)@ == resume_tr(old(self)@, now as int),
            wf(old(self)@) ==> wf(final(self)@),
    {
        if self.paused {
            self.paused = false;
            let dead = match self.pause_started_at {
                Some(start) => now.saturating_sub(start),
                None => 0,
            };
            self.fold_all_timers(dead);
            if !self.system_locked {
                self.pause_started_at = None;
            }
        }
    }

    /// Sets or clears the manual-pause suspension source, idempotently.
    pub fn set_paused(&mut self, paused: bool, now: u64)
        ensures
            paused ==> final(self)@ == pause_tr(old(self)@, now as int),
            !paused ==> final(self)@ == resume_tr(old(self)@, now as int),
            wf(old(self)@) ==> wf(final(self)@),
    {
        if paused {
            self.pause(now);
        } else {
            self.resume(now);
        }
    }

    /// On a lock lift, restarts every task opted into auto-reset and folds
    /// the dead time into all others.
    fn fold_or_restart_timers(&mut self, dead: u64, now: u64)
        ensures
            final(self)@ == (StateView {
                timers: old(self)@.timers.map_values(
                    |t: TimerView|
                        if t.config.auto_reset_on_idle {
                            timer_restarted(t, now as int)
                        } else {
                            timer_folded(t, dead as int)
                        },
                ),
                ..old(self)@
            }),
    {
        let ghost target = old(self)@.timers.map_values(
            |t: TimerView|
                if t.config.auto_reset_on_idle {
                    timer_restarted(t, now as int)
                } else {
                    timer_folded(t, dead as int)
                },
        );
        let n = self.timers.len();
        let mut out: Vec<TaskTimer> = Vec::new();
        for i in 0..n
            invariant
                n == self.timers.len(),
                *self == *old(self),
                out@.len() == i,
                target == old(self)@.timers.map_values(
                    |t: TimerView|
                        if t.config.auto_reset_on_idle {
                            timer_restarted(t, now as int)
                        } else {
                            timer_folded(t, dead as int)
                        },
                ),
                forall|j: int| 0 <= j < i ==> out@[j]@ == target[j],
        {
            let t = &self.timers[i];
            if t.config.auto_reset_on_idle {
                out.push(TaskTimer {
                    config: t.config.clone(),
                    epoch: now,
                    triggered: false,
                    disabled_since: t.disabled_since,
                });
            } else {
                out.push(TaskTimer {
                    config: t.config.clone(),
                    epoch: t.epoch.saturating_add(dead),
                    triggered: t.triggered,
                    disabled_since: t.disabled_since,
                });
            }
        }
        self.timers = out;
        proof {
            assert(final(self)@.timers =~= target);
        }
    }

    /// Sets or clears the system-lock suspension source, idempotently.  A
    /// lift restarts every task opted into auto-reset — stepping away from a
    /// locked session counts as leaving — and compensates all others.
    pub fn set_system_locked(&mut self, locked: bool, now: u64)
        ensures
            locked ==> final(self)@ == lock_tr(old(self)@, now as int),
            !locked ==> final(self)@ == unlock_tr(old(self)@, now as int),
            wf(old(self)@) ==> wf(final(self)@),
    {
        if locked {
            if !self.system_locked {
                self.system_locked = true;
                if self.pause_started_at.is_none() {
                    self.pause_started_at = Some(now);
                }
            }
        } else {
            if self.system_locked {
                self.system_locked = false;
                let dead = match self.pause_started_at {
                    Some(start) => now.saturating_sub(start),
                    None => 0,
                };
                self.fold_or_restart_timers(dead, now);
                if !self.paused {
                    self.pause_started_at = None;
                }
            }
        }
    }

    /// Sets or clears the overlay-lock suspension source, idempotently.  The
    /// overlay has its own start slot; leaving it folds the dead time into
    /// every timer unconditionally.
    pub fn set_overlay_active(&mut self, active: bool, now: u64)
        ensures
            active ==> final(self)@ == overlay_enter_tr(old(self)@, now as int),
            !active ==> final(self)@ == overlay_exit_tr(old(self)@, now as int),
            wf(old(self)@) ==> wf(final(self)@),
    {
        if active {
            if !self.overlay_active {
                self.overlay_active = true;
                self.overlay_started_at = Some(now);
            }
        } else {
            if self.overlay_active {
                self.overlay_active = false;
                let dead = match self.overlay_started_at {
                    Some(start) => now.saturating_sub(start),
                    None => 0,
                };
                self.fold_all_timers(dead);
                self.overlay_started_at = None;
            }
        }
    }

    /// Forces the task named `id` back to a full countdown; an unknown id is
    /// silently ignored.
    pub fn reset_task(&mut self, id: &String, now: u64)
        ensures
            final(self)@ == reset_task_tr(old(self)@, id@, now as int),
            wf(old(self)@) ==> wf(final(self)@),
    {
        let ghost target = reset_task_tr(old(self)@, id@, now as int).timers;
        let n = self.timers.len();
        let mut out: Vec<TaskTimer> = Vec::new();
        for i in 0..n
            invariant
                n == self.timers.len(),
                *self == *old(self),
                out@.len() == i,
                target == reset_task_tr(old(self)@, id@, now as int).timers,
                forall|j: int| 0 <= j < i ==> out@[j]@ == target[j],
        {
            let t = &self.timers[i];
            if t.config.id == *id {
                out.push(reset_timer(t, now));
            } else {
                out.push(t.clone());
            }
        }
        self.timers = out;
        proof {
            assert(final(self)@.timers =~= target);
        }
    }

    /// Forces every task back to a full countdown.
    pub fn reset_all(&mut self, now: u64)
        ensures
            final(self)@ == reset_all_tr(old(self)@, now as int),
            wf(old(self)@) ==> wf(final(self)@),
    {
        let ghost target = reset_all_tr(old(self)@, now as int).timers;
        let n = self.timers.len();
        let mut out: Vec<TaskTimer> = Vec::new();
        for i in 0..n
            invariant
                n == self.timers.len(),
                *self == *old(self),
                out@.len() == i,
                target == reset_all_tr(old(self)@, now as int).timers,
                forall|j: int| 0 <= j < i ==> out@[j]@ == target[j],
        {
            out.push(reset_timer(&self.timers[i], now));
        }
        self.timers = out;
        proof {
            assert(final(self)@.timers =~= target);
        }
    }

    /// Delays the next fire of the task named `id` by `minutes` without a
    /// full reset; an unknown id is silently ignored.
    pub fn snooze_task(&mut self, id: &String, minutes: u32)
        ensures
            final(self)@ == snooze_tr(old(self)@, id@, minutes as int),
            wf(old(self)@) ==> wf(final(self)@),
    {
        let ghost target = snooze_tr(old(self)@, id@, minutes as int).timers;
        let n = self.timers.len();
        let mut out: Vec<TaskTimer> = Vec::new();
        for i in 0..n
            invariant
                n == self.timers.len(),
                *self == *old(self),
                out@.len() == i,
                target == snooze_tr(old(self)@, id@, minutes as int).timers,
                forall|j: int| 0 <= j < i ==> out@[j]@ == target[j],
        {
            let t = &self.timers[i];
            if t.config.id == *id {
                out.push(TaskTimer {
                    config: t.config.clone(),
                    epoch: t.epoch.saturating_add((minutes as u64) * 60),
                    triggered: false,
                    disabled_since: t.disabled_since,
                });
            } else {
                out.push(t.clone());
            }
        }
        self.timers = out;
        proof {
            assert(final(self)@.timers =~= target);
        }
    }

    /// Adjusts the idle threshold.
    pub fn set_idle_threshold(&mut self, seconds: u64)
        ensures
            final(self)@ == idle_threshold_tr(old(self)@, seconds as int),
            wf(old(self)@) ==> wf(final(self)@),
    {
        self.idle_threshold_seconds = seconds;
    }

    /// Reads the idle threshold; a pure query.
    pub fn get_idle_threshold(&self) -> (r: u64)
        ensures
            r as int == self@.idle_threshold,
    {
        self.idle_threshold_seconds
    }
}

/// The view of a sequence of configurations.
pub open spec fn configs_view(configs: Seq<TaskConfig>) -> Seq<ConfigView> {
    configs.map_values(|c: TaskConfig| c@)
}

impl TimerState {
    /// Replaces the full task set with `configs`, preserving countdown
    /// progress per task id: an unchanged interval keeps the running
    /// countdown, an interval change restarts it, and enable or disable
    /// transitions fold or freeze the disabled window.  Task ids absent from
    /// `configs` are dropped.
    pub fn sync(&mut self, configs: &Vec<TaskConfig>, now: u64)
        ensures
            final(self)@ == sync_tr(old(self)@, configs_view(configs@), now as int),
            wf(old(self)@) ==> wf(final(self)@),
    {
        let ghost target = sync_tr(old(self)@, configs_view(configs@), now as int).timers;
        let n = configs.len();
        let mut out: Vec<TaskTimer> = Vec::new();
        for i in 0..n
            invariant
                n == configs@.len(),
                *self == *old(self),
                out@.len() == i,
                target == sync_tr(old(self)@, configs_view(configs@), now as int).timers,
                forall|j: int| 0 <= j < i ==> out@[j]@ == target[j],
        {
            let c = &configs[i];
            let found = find_timer_index(&self.timers, &c.id);
            match found {
                Some(j) => {
                    out.push(reconcile_existing(&self.timers[j], c, now));
                },
                None => {
                    out.push(fresh_timer(c, now));
                },
            }
        }
        self.timers = out;
        proof {
            assert(final(self)@.timers =~= target);
        }
    }
}

/// The index of the first timer whose task id equals `id`, if any; the
/// result is tied to the model's `find_timer`.
fn find_timer_index(timers: &Vec<TaskTimer>, id: &String) -> (r: Option<usize>)
    ensures
        match r {
            Some(j) => j < timers@.len() && find_timer(timers_view(timers@), id@) == Some(
                timers@[j as int]@,
            ),
            None => find_timer(timers_view(timers@), id@) is None,
        },
{
    let ghost tv = timers_view(timers@);
    let n = timers.len();
    proof {
        assert(tv.skip(0) =~= tv);
    }
    for i in 0..n
        invariant
            n == timers@.len(),
            tv == timers_view(timers@),
            find_timer(tv, id@) == find_timer(tv.skip(i as int), id@),
    {
        proof {
            assert(tv.skip(i as int)[0] == tv[i as int]);
        }
        if timers[i].config.id == *id {
            proof {
                assert(find_timer(tv.skip(i as int), id@) == Some(tv[i as int]));
            }
            return Some(i);
        }
        proof {
            assert(tv.skip(i as int).drop_first() =~= tv.skip(i as int + 1));
        }
    }
    proof {
        assert(tv.skip(n as int).len() == 0);
    }
    None
}

/// A timer newly created for an incoming configuration with no existing
/// counterpart: the countdown starts at `now`, and a configuration that
/// arrives already disabled is frozen at `now` as well.
fn fresh_timer(c: &TaskConfig, now: u64) -> (r: TaskTimer)
    ensures
        r@ == reconciled_timer(None, c@, now as int),
{
    TaskTimer {
        config: c.clone(),
        epoch: now,
        triggered: false,
        disabled_since: if c.enabled {
            None
        } else {
            Some(now)
        },
    }
}

/// The reconciliation of an existing timer with its incoming configuration.
fn reconcile_existing(t: &TaskTimer, c: &TaskConfig, now: u64) -> (r: TaskTimer)
    ensures
        r@ == reconciled_timer(Some(t@), c@, now as int),
{
    if t.config.interval_minutes != c.interval_minutes {
        TaskTimer { config: c.clone(), epoch: now, triggered: false, disabled_since: None }
    } else if !t.config.enabled && c.enabled {
        let dead = match t.disabled_since {
            Some(d) => now.saturating_sub(d),
            None => 0,
        };
        TaskTimer {
            config: c.clone(),
            epoch: t.epoch.saturating_add(dead),
            triggered: t.triggered,
            disabled_since: None,
        }
    } else if t.config.enabled && !c.enabled {
        TaskTimer {
            config: c.clone(),
            epoch: t.epoch,
            triggered: t.triggered,
            disabled_since: Some(now),
        }
    } else {
        TaskTimer {
            config: c.clone(),
            epoch: t.epoch,
            triggered: t.triggered,
            disabled_since: t.disabled_since,
        }
    }
}

/// The view of a sequence of trigger events.
pub open spec fn events_view(events: Seq<TriggerEvent>) -> Seq<EventView> {
    events.map_values(|e: TriggerEvent| e@)
}

impl TimerState {
    /// The idle-tracker step of a tick: compares the probe reading against
    /// the threshold and, on a transition in either direction, restarts every
    /// enabled task opted into auto-reset.  Returns whether the idle state
    /// flipped.
    fn update_idle(&mut self, now: u64, idle_seconds: u64) -> (transitioned: bool)
        ensures
            final(self)@ == idle_update_tr(old(self)@, now as int, idle_seconds as int),
            transitioned == (idle_reading(old(self)@, idle_seconds as int) != old(self)@.is_idle),
    {
        let idle_now = idle_seconds >= self.idle_threshold_seconds;
        if idle_now == self.is_idle {
            return false;
        }
        self.is_idle = idle_now;
        self.idle_started_at = if idle_now {
            Some(now)
        } else {
            None
        };
        let ghost target = old(self)@.timers.map_values(
            |t: TimerView|
                if t.config.enabled && t.config.auto_reset_on_idle {
                    timer_restarted(t, now as int)
                } else {
                    t
                },
        );
        let n = self.timers.len();
        let mut out: Vec<TaskTimer> = Vec::new();
        for i in 0..n
            invariant
                n == self.timers.len(),
                self.timers == old(self).timers,
                out@.len() == i,
                target == old(self)@.timers.map_values(
                    |t: TimerView|
                        if t.config.enabled && t.config.auto_reset_on_idle {
                            timer_restarted(t, now as int)
                        } else {
                            t
                        },
                ),
                forall|j: int| 0 <= j < i ==> out@[j]@ == target[j],
        {
            let t = &self.timers[i];
            if t.config.enabled && t.config.auto_reset_on_idle {
                out.push(TaskTimer {
                    config: t.config.clone(),
                    epoch: now,
                    triggered: false,
                    disabled_since: t.disabled_since,
                });
            } else {
                out.push(t.clone());
            }
        }
        self.timers = out;
        proof {
            assert(final(self)@.timers =~= target);
        }
        true
    }

    /// The trigger-evaluation step of a tick: every due timer fires — its
    /// event is returned in task order — and is immediately restarted.
    fn fire_due(&mut self, now: u64) -> (fired: Vec<TriggerEvent>)
        ensures
            final(self)@ == (StateView {
                timers: old(self)@.timers.map_values(
                    |t: TimerView|
                        if due(t, now as int) {
                            timer_restarted(t, now as int)
                        } else {
                            t
                        },
                ),
                ..old(self)@
            }),
            events_view(fired@) == events_of_due(old(self)@.timers, now as int),
    {
        let ghost tv = old(self)@.timers;
        let ghost target = tv.map_values(
            |t: TimerView|
                if due(t, now as int) {
                    timer_restarted(t, now as int)
                } else {
                    t
                },
        );
        let n = self.timers.len();
        let mut out: Vec<TaskTimer> = Vec::new();
        let mut fired: Vec<TriggerEvent> = Vec::new();
        proof {
            assert(tv.subrange(0, 0) =~= Seq::<TimerView>::empty());
        }
        for i in 0..n
            invariant
                n == self.timers.len(),
                self.timers == old(self).timers,
                tv == timers_view(self.timers@),
                out@.len() == i,
                target == tv.map_values(
                    |t: TimerView|
                        if due(t, now as int) {
                            timer_restarted(t, now as int)
                        } else {
                            t
                        },
                ),
                forall|j: int| 0 <= j < i ==> out@[j]@ == target[j],
                events_view(fired@) == events_of_due(tv.subrange(0, i as int), now as int),
        {
            let t = &self.timers[i];
            let is_due = t.config.enabled && !t.triggered
                && now.saturating_sub(t.epoch) >= t.total_seconds();
            proof {
                assert(tv.subrange(0, i as int + 1).drop_last() =~= tv.subrange(0, i as int));
                assert(tv.subrange(0, i as int + 1).last() == tv[i as int]);
            }
            if is_due {
                fired.push(TriggerEvent::for_config(&t.config));
                out.push(TaskTimer {
                    config: t.config.clone(),
                    epoch: now,
                    triggered: false,
                    disabled_since: t.disabled_since,
                });
            } else {
                out.push(t.clone());
            }
            proof {
                assert(events_view(fired@) =~= events_of_due(
                    tv.subrange(0, i as int + 1),
                    now as int,
                ));
            }
        }
        self.timers = out;
        proof {
            assert(tv.subrange(0, n as int) =~= tv);
            assert(final(self)@.timers =~= target);
        }
        fired
    }

    /// One scheduler tick at timestamp `now`, with the idle probe's current
    /// reading.  While any suspension source is active the whole tick is
    /// skipped; otherwise the idle tracker is updated, and unless the engine
    /// is idle every due task fires and restarts — a repeating alarm.
    pub fn tick(&mut self, now: u64, idle_seconds: u64) -> (r: TickOutcome)
        ensures
            final(self)@ == tick_tr(old(self)@, now as int, idle_seconds as int),
            events_view(r.fired@) == fired_events(old(self)@, now as int, idle_seconds as int),
            r.idle_changed == idle_transition(old(self)@, idle_seconds as int),
            wf(old(self)@) ==> wf(final(self)@),
    {
        proof {
            assert(events_view(Seq::<TriggerEvent>::empty()) =~= Seq::<EventView>::empty());
        }
        if self.paused || self.system_locked || self.overlay_active {
            return TickOutcome { fired: Vec::new(), idle_changed: false };
        }
        let transitioned = self.update_idle(now, idle_seconds);
        if self.is_idle {
            return TickOutcome { fired: Vec::new(), idle_changed: transitioned };
        }
        let fired = self.fire_due(now);
        TickOutcome { fired, idle_changed: transitioned }
    }

    /// A pure snapshot of every task's countdown, for display: per task the
    /// remaining seconds, the full interval in seconds, and the enabled flag.
    /// Remaining time never leaves `[0, total]`.
    pub fn get_countdowns(&self, now: u64) -> (r: Vec<CountdownEntry>)
        ensures
            r@.len() == self@.timers.len(),
            forall|i: int|
                0 <= i < r@.len() ==> r@[i]@ == countdown_of(self@.timers[i], now as int),
            forall|i: int| #![trigger r@[i]] 0 <= i < r@.len() ==> 0 <= r@[i]@.remaining <= r@[i]@.total,
    {
        let n = self.timers.len();
        let mut out: Vec<CountdownEntry> = Vec::new();
        for i in 0..n
            invariant
                n == self.timers.len(),
                out@.len() == i,
                forall|j: int|
                    0 <= j < i ==> out@[j]@ == countdown_of(self@.timers[j], now as int),
                forall|j: int| #![trigger out@[j]] 0 <= j < i ==> 0 <= out@[j]@.remaining <= out@[j]@.total,
        {
            let t = &self.timers[i];
            out.push(CountdownEntry {
                id: t.config.id.clone(),
                remaining: t.remaining_seconds(now),
                total: t.total_seconds(),
                enabled: t.config.enabled,
            });
        }
        out
    }
}

/// The timer of `t` forced back to a full countdown at `now`.
fn reset_timer(t: &TaskTimer, now: u64) -> (r: TaskTimer)
    ensures
        r@ == timer_reset(t@, now as int),
{
    TaskTimer {
        config: t.config.clone(),
        epoch: now,
        triggered: false,
        disabled_since: if t.config.enabled {
            t.disabled_since
        } else {
            Some(now)
        },
    }
}

} // verus!
