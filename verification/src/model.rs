//! Mathematical model of the countdown engine.
//!
//! Every executable operation of the engine is specified against the
//! transition functions in this module: a command's `ensures` states that the
//! new state equals the corresponding `*_tr` function applied to the old
//! state.  All quantities are modelled as unbounded integers; additions and
//! subtractions saturate at the `u64` range exactly as the executable code
//! does.

use vstd::prelude::*;

verus! {

/// Addition clamped to the `u64` range, mirroring `u64::saturating_add`.
pub open spec fn sat_add(a: int, b: int) -> int {
    if a + b > u64::MAX {
        u64::MAX as int
    } else {
        a + b
    }
}

/// Subtraction clamped at zero, mirroring `u64::saturating_sub`.
pub open spec fn sat_sub(a: int, b: int) -> int {
    if a >= b {
        a - b
    } else {
        0
    }
}

/// The model of one task configuration.
#[verifier::ext_equal]
pub struct ConfigView {
    pub id: Seq<char>,
    pub title: Seq<char>,
    pub description: Seq<char>,
    pub icon: Seq<char>,
    pub interval_minutes: int,
    pub enabled: bool,
    pub auto_reset_on_idle: bool,
}

/// The model of one task's countdown timer.
#[verifier::ext_equal]
pub struct TimerView {
    pub config: ConfigView,
    /// The timestamp the countdown is measured from; advancing it is how all
    /// suspension mechanisms freeze a countdown.
    pub epoch: int,
    /// Scratch flag; every transition that sets it clears it again within the
    /// same step, so between operations it is never observably `true`.
    pub triggered: bool,
    /// The timestamp at which the task was last disabled, if it is disabled;
    /// it serves as the frozen "now" of a disabled task's display.
    pub disabled_since: Option<int>,
}

/// The model of the whole engine state.
#[verifier::ext_equal]
pub struct StateView {
    pub timers: Seq<TimerView>,
    pub paused: bool,
    pub system_locked: bool,
    /// Start of the suspension window shared by the manual-pause and
    /// system-lock sources: stamped when the first of the two rises, cleared
    /// when the last of the two falls.
    pub pause_started_at: Option<int>,
    pub overlay_active: bool,
    pub overlay_started_at: Option<int>,
    pub idle_threshold: int,
    pub is_idle: bool,
    pub idle_started_at: Option<int>,
}

/// The model of a trigger event handed to the embedding layer.
#[verifier::ext_equal]
pub struct EventView {
    pub id: Seq<char>,
    pub title: Seq<char>,
    pub description: Seq<char>,
    pub icon: Seq<char>,
}

/// The model of one row of the countdown snapshot.
#[verifier::ext_equal]
pub struct CountdownView {
    pub id: Seq<char>,
    pub remaining: int,
    pub total: int,
    pub enabled: bool,
}

/// A task's full interval in seconds.
pub open spec fn total_seconds(c: ConfigView) -> int {
    c.interval_minutes * 60
}

/// The timestamp a task's elapsed time is measured up to: a disabled task is
/// frozen at the moment it was disabled.
pub open spec fn effective_now(t: TimerView, now: int) -> int {
    match t.disabled_since {
        Some(d) => d,
        None => now,
    }
}

/// Seconds of countdown consumed so far.
pub open spec fn elapsed_seconds(t: TimerView, now: int) -> int {
    sat_sub(effective_now(t, now), t.epoch)
}

/// Seconds left until the task is due, clamped to `[0, total_seconds]`.
pub open spec fn remaining_seconds(t: TimerView, now: int) -> int {
    sat_sub(total_seconds(t.config), elapsed_seconds(t, now))
}

/// The snapshot row describing one task.
pub open spec fn countdown_of(t: TimerView, now: int) -> CountdownView {
    CountdownView {
        id: t.config.id,
        remaining: remaining_seconds(t, now),
        total: total_seconds(t.config),
        enabled: t.config.enabled,
    }
}

/// The trigger event describing one task.
pub open spec fn event_of(c: ConfigView) -> EventView {
    EventView { id: c.id, title: c.title, description: c.description, icon: c.icon }
}

/// A timer with `dead` seconds of suspension folded into its epoch, which
/// freezes the elapsed time accumulated across the suspension window.
pub open spec fn timer_folded(t: TimerView, dead: int) -> TimerView {
    TimerView { epoch: sat_add(t.epoch, dead), ..t }
}

/// A timer restarted from scratch at `now`.
pub open spec fn timer_restarted(t: TimerView, now: int) -> TimerView {
    TimerView { epoch: now, triggered: false, ..t }
}

/// A timer forced back to a full countdown; a disabled timer's frozen display
/// is re-stamped so that it reflects the reset point.
pub open spec fn timer_reset(t: TimerView, now: int) -> TimerView {
    TimerView {
        epoch: now,
        triggered: false,
        disabled_since: if t.config.enabled {
            t.disabled_since
        } else {
            Some(now)
        },
        ..t
    }
}

/// A timer whose next fire is delayed by `minutes` without a full reset.
pub open spec fn timer_snoozed(t: TimerView, minutes: int) -> TimerView {
    TimerView { epoch: sat_add(t.epoch, minutes * 60), triggered: false, ..t }
}

/// Whether any suspension source is active; a suspended engine skips all tick
/// processing.
pub open spec fn suspended(s: StateView) -> bool {
    s.paused || s.system_locked || s.overlay_active
}

/// Dead time accumulated in the shared pause/system-lock window as of `now`.
pub open spec fn shared_dead_time(s: StateView, now: int) -> int {
    match s.pause_started_at {
        Some(start) => sat_sub(now, start),
        None => 0,
    }
}

/// Dead time accumulated in the overlay window as of `now`.
pub open spec fn overlay_dead_time(s: StateView, now: int) -> int {
    match s.overlay_started_at {
        Some(start) => sat_sub(now, start),
        None => 0,
    }
}

/// Manual pause engaged: idempotent; stamps the shared start slot only when
/// no shared-window suspension is already running.
pub open spec fn pause_tr(s: StateView, now: int) -> StateView {
    if s.paused {
        s
    } else {
        StateView {
            paused: true,
            pause_started_at: if s.pause_started_at is None {
                Some(now)
            } else {
                s.pause_started_at
            },
            ..s
        }
    }
}

/// Manual pause lifted: idempotent; folds the shared window's dead time into
/// every timer uniformly, and clears the shared slot unless the system-lock
/// source still holds it open.
pub open spec fn resume_tr(s: StateView, now: int) -> StateView {
    if !s.paused {
        s
    } else {
        let dead = shared_dead_time(s, now);
        StateView {
            paused: false,
            timers: s.timers.map_values(|t: TimerView| timer_folded(t, dead)),
            pause_started_at: if s.system_locked {
                s.pause_started_at
            } else {
                None
            },
            ..s
        }
    }
}

/// System lock engaged: idempotent; stamps the shared start slot only when no
/// shared-window suspension is already running.
pub open spec fn lock_tr(s: StateView, now: int) -> StateView {
    if s.system_locked {
        s
    } else {
        StateView {
            system_locked: true,
            pause_started_at: if s.pause_started_at is None {
                Some(now)
            } else {
                s.pause_started_at
            },
            ..s
        }
    }
}

/// System lock lifted: idempotent; tasks opted into auto-reset are restarted
/// outright, all others have the shared window's dead time folded in.  The
/// shared slot is cleared unless a manual pause still holds it open.
pub open spec fn unlock_tr(s: StateView, now: int) -> StateView {
    if !s.system_locked {
        s
    } else {
        let dead = shared_dead_time(s, now);
        StateView {
            system_locked: false,
            timers: s.timers.map_values(
                |t: TimerView|
                    if t.config.auto_reset_on_idle {
                        timer_restarted(t, now)
                    } else {
                        timer_folded(t, dead)
                    },
            ),
            pause_started_at: if s.paused {
                s.pause_started_at
            } else {
                None
            },
            ..s
        }
    }
}

/// Overlay-lock mode engaged: idempotent; the overlay keeps a start slot of
/// its own, independent of the shared pause/lock window.
pub open spec fn overlay_enter_tr(s: StateView, now: int) -> StateView {
    if s.overlay_active {
        s
    } else {
        StateView { overlay_active: true, overlay_started_at: Some(now), ..s }
    }
}

/// Overlay-lock mode left: idempotent; folds the overlay window's dead time
/// into every timer unconditionally, so the time spent looking at an already
/// fired alarm does not re-trigger it on exit.
pub open spec fn overlay_exit_tr(s: StateView, now: int) -> StateView {
    if !s.overlay_active {
        s
    } else {
        let dead = overlay_dead_time(s, now);
        StateView {
            overlay_active: false,
            overlay_started_at: None,
            timers: s.timers.map_values(|t: TimerView| timer_folded(t, dead)),
            ..s
        }
    }
}

/// The first timer whose task id equals `id`, if any.
pub open spec fn find_timer(timers: Seq<TimerView>, id: Seq<char>) -> Option<TimerView>
    decreases timers.len(),
{
    if timers.len() == 0 {
        None
    } else if timers[0].config.id == id {
        Some(timers[0])
    } else {
        find_timer(timers.drop_first(), id)
    }
}

/// The reconciliation rule applied per incoming configuration: countdown
/// progress is preserved unless the interval changed; enable and disable
/// transitions freeze or fold the disabled window.
pub open spec fn reconciled_timer(existing: Option<TimerView>, c: ConfigView, now: int) -> TimerView {
    match existing {
        None => TimerView {
            config: c,
            epoch: now,
            triggered: false,
            disabled_since: if c.enabled {
                None
            } else {
                Some(now)
            },
        },
        Some(t) => {
            if t.config.interval_minutes != c.interval_minutes {
                // An interval change always restarts, even while disabled.
                TimerView { config: c, epoch: now, triggered: false, disabled_since: None }
            } else if !t.config.enabled && c.enabled {
                // Re-enabled: fold the whole disabled window into the epoch.
                let dead = match t.disabled_since {
                    Some(d) => sat_sub(now, d),
                    None => 0,
                };
                TimerView {
                    config: c,
                    epoch: sat_add(t.epoch, dead),
                    triggered: t.triggered,
                    disabled_since: None,
                }
            } else if t.config.enabled && !c.enabled {
                // Newly disabled: freeze the display at this instant.
                TimerView {
                    config: c,
                    epoch: t.epoch,
                    triggered: t.triggered,
                    disabled_since: Some(now),
                }
            } else {
                // Same interval, no enable transition: take over the new
                // display fields and keep the countdown untouched.
                TimerView {
                    config: c,
                    epoch: t.epoch,
                    triggered: t.triggered,
                    disabled_since: t.disabled_since,
                }
            }
        },
    }
}

/// Full task-set replacement: every incoming configuration is reconciled
/// against the existing timer of the same id, and any task id absent from the
/// incoming list is dropped.
pub open spec fn sync_tr(s: StateView, configs: Seq<ConfigView>, now: int) -> StateView {
    StateView {
        timers: configs.map_values(|c: ConfigView| reconciled_timer(find_timer(s.timers, c.id), c, now)),
        ..s
    }
}

/// Reset of the timers selected by `sel`; unknown ids select nothing and are
/// thereby silently ignored.
pub open spec fn reset_where_tr(s: StateView, sel: spec_fn(TimerView) -> bool, now: int) -> StateView {
    StateView {
        timers: s.timers.map_values(
            |t: TimerView|
                if sel(t) {
                    timer_reset(t, now)
                } else {
                    t
                },
        ),
        ..s
    }
}

/// Reset of the single task named `id`.
pub open spec fn reset_task_tr(s: StateView, id: Seq<char>, now: int) -> StateView {
    reset_where_tr(s, |t: TimerView| t.config.id == id, now)
}

/// Reset of every task.
pub open spec fn reset_all_tr(s: StateView, now: int) -> StateView {
    reset_where_tr(s, |t: TimerView| true, now)
}

/// Snooze of the task named `id` by `minutes`.
pub open spec fn snooze_tr(s: StateView, id: Seq<char>, minutes: int) -> StateView {
    StateView {
        timers: s.timers.map_values(
            |t: TimerView|
                if t.config.id == id {
                    timer_snoozed(t, minutes)
                } else {
                    t
                },
        ),
        ..s
    }
}

/// Adjustment of the idle threshold.
pub open spec fn idle_threshold_tr(s: StateView, seconds: int) -> StateView {
    StateView { idle_threshold: seconds, ..s }
}

/// Whether a probe reading counts as idle under the state's threshold.
pub open spec fn idle_reading(s: StateView, idle_seconds: int) -> bool {
    idle_seconds >= s.idle_threshold
}

/// The idle-tracker step of a tick: on a transition in either direction,
/// every enabled task opted into auto-reset is restarted, because both going
/// idle and returning from idle are treated as a fresh start.
pub open spec fn idle_update_tr(s: StateView, now: int, idle_seconds: int) -> StateView {
    let idle_now = idle_reading(s, idle_seconds);
    if idle_now == s.is_idle {
        s
    } else {
        StateView {
            is_idle: idle_now,
            idle_started_at: if idle_now {
                Some(now)
            } else {
                None
            },
            timers: s.timers.map_values(
                |t: TimerView|
                    if t.config.enabled && t.config.auto_reset_on_idle {
                        timer_restarted(t, now)
                    } else {
                        t
                    },
            ),
            ..s
        }
    }
}

/// Whether a timer is due to fire at `now`: enabled, not yet triggered, and
/// its interval fully elapsed.
pub open spec fn due(t: TimerView, now: int) -> bool {
    t.config.enabled && !t.triggered && sat_sub(now, t.epoch) >= total_seconds(t.config)
}

/// The trigger events of all due timers, in task order.
pub open spec fn events_of_due(timers: Seq<TimerView>, now: int) -> Seq<EventView>
    decreases timers.len(),
{
    if timers.len() == 0 {
        Seq::empty()
    } else {
        let rest = events_of_due(timers.drop_last(), now);
        if due(timers.last(), now) {
            rest.push(event_of(timers.last().config))
        } else {
            rest
        }
    }
}

/// One scheduler tick: a suspended engine skips everything; otherwise the
/// idle tracker is updated first, and unless the engine is now idle, every
/// due timer fires and is immediately restarted — a repeating alarm, not a
/// one-shot.
pub open spec fn tick_tr(s: StateView, now: int, idle_seconds: int) -> StateView {
    if suspended(s) {
        s
    } else {
        let s1 = idle_update_tr(s, now, idle_seconds);
        if s1.is_idle {
            s1
        } else {
            StateView {
                timers: s1.timers.map_values(
                    |t: TimerView|
                        if due(t, now) {
                            timer_restarted(t, now)
                        } else {
                            t
                        },
                ),
                ..s1
            }
        }
    }
}

/// The trigger events a tick emits: none while suspended or idle.
pub open spec fn fired_events(s: StateView, now: int, idle_seconds: int) -> Seq<EventView> {
    if suspended(s) {
        Seq::empty()
    } else {
        let s1 = idle_update_tr(s, now, idle_seconds);
        if s1.is_idle {
            Seq::empty()
        } else {
            events_of_due(s1.timers, now)
        }
    }
}

/// Whether a tick flips the idle state (in either direction).
pub open spec fn idle_transition(s: StateView, idle_seconds: int) -> bool {
    !suspended(s) && idle_reading(s, idle_seconds) != s.is_idle
}

/// The state of a freshly created engine: no tasks, nothing suspended, the
/// default idle threshold of five minutes.
pub open spec fn initial_state() -> StateView {
    StateView {
        timers: Seq::empty(),
        paused: false,
        system_locked: false,
        pause_started_at: None,
        overlay_active: false,
        overlay_started_at: None,
        idle_threshold: 300,
        is_idle: false,
        idle_started_at: None,
    }
}

/// Consistency of the bookkeeping slots: a suspension window's start slot is
/// occupied exactly while one of its sources is active, and the idle start
/// slot exactly while the engine is idle.  Established by the initial state
/// and preserved by every transition.
pub open spec fn wf(s: StateView) -> bool {
    &&& (s.pause_started_at is Some) == (s.paused || s.system_locked)
    &&& (s.overlay_started_at is Some) == s.overlay_active
    &&& (s.idle_started_at is Some) == s.is_idle
}

} // verus!
