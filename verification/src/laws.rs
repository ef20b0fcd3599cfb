//! Proved laws of the engine.
//!
//! Each proof function here states a behavioural guarantee of the engine over
//! the model's transition functions; the executable commands are tied to
//! those transitions by their own contracts.

use vstd::prelude::*;

use crate::model::{
    ConfigView, EventView, StateView, TimerView, due, elapsed_seconds, event_of, events_of_due,
    fired_events, idle_update_tr, lock_tr, overlay_enter_tr, overlay_exit_tr, pause_tr,
    reconciled_timer, remaining_seconds, resume_tr, suspended, tick_tr, timer_folded,
    timer_restarted, timer_snoozed, total_seconds, unlock_tr,
};

verus! {

/// Re-asserting the manual pause is a no-op, and in particular an eventual
/// resume compensates the suspension window only once.
pub proof fn lemma_pause_idempotent(s: StateView, t1: int, t2: int, t3: int)
    ensures
        pause_tr(pause_tr(s, t1), t2) == pause_tr(s, t1),
        resume_tr(pause_tr(pause_tr(s, t1), t2), t3) == resume_tr(pause_tr(s, t1), t3),
        resume_tr(resume_tr(s, t1), t2) == resume_tr(s, t1),
{
}

/// Re-asserting the system-lock source is a no-op, in either direction.
pub proof fn lemma_lock_idempotent(s: StateView, t1: int, t2: int)
    ensures
        lock_tr(lock_tr(s, t1), t2) == lock_tr(s, t1),
        unlock_tr(unlock_tr(s, t1), t2) == unlock_tr(s, t1),
{
}

/// Re-asserting the overlay source is a no-op, in either direction.
pub proof fn lemma_overlay_idempotent(s: StateView, t1: int, t2: int)
    ensures
        overlay_enter_tr(overlay_enter_tr(s, t1), t2) == overlay_enter_tr(s, t1),
        overlay_exit_tr(overlay_exit_tr(s, t1), t2) == overlay_exit_tr(s, t1),
{
}

/// Dead-time conservation: pausing at `t0` and resuming `d` seconds later
/// leaves a running task's remaining time exactly where it stood at the
/// moment of the pause.
pub proof fn lemma_pause_resume_conserves_remaining(s: StateView, i: int, t0: int, d: int)
    requires
        !s.paused,
        !s.system_locked,
        s.pause_started_at is None,
        0 <= i < s.timers.len(),
        s.timers[i].disabled_since is None,
        !s.timers[i].config.auto_reset_on_idle,
        0 <= d,
        0 <= s.timers[i].epoch,
        s.timers[i].epoch + d <= u64::MAX,
    ensures
        remaining_seconds(resume_tr(pause_tr(s, t0), t0 + d).timers[i], t0 + d)
            == remaining_seconds(s.timers[i], t0),
{
    let folded = resume_tr(pause_tr(s, t0), t0 + d).timers[i];
    assert(folded == timer_folded(s.timers[i], d));
}

/// Remaining time is always within `[0, total]`.
pub proof fn lemma_remaining_bounds(t: TimerView, now: int)
    requires
        0 <= t.config.interval_minutes,
    ensures
        0 <= remaining_seconds(t, now),
        remaining_seconds(t, now) <= total_seconds(t.config),
{
}

/// Folding dead time never moves an epoch backward: suspension compensation
/// freezes elapsed time, it cannot manufacture any.
pub proof fn lemma_fold_advances_epoch(t: TimerView, dead: int)
    requires
        0 <= t.epoch <= u64::MAX,
        0 <= dead,
    ensures
        timer_folded(t, dead).epoch >= t.epoch,
{
}

/// A disabled task's displayed remaining time is frozen: it does not depend
/// on the current instant at all.
pub proof fn lemma_disabled_display_frozen(t: TimerView, n1: int, n2: int)
    requires
        t.disabled_since is Some,
    ensures
        remaining_seconds(t, n1) == remaining_seconds(t, n2),
{
}

/// Disabling a task freezes its remaining time, and re-enabling it folds the
/// whole disabled window into the epoch, so the remaining time picks up
/// exactly where it was frozen.
pub proof fn lemma_disable_enable_conserves_remaining(
    t: TimerView,
    c_off: ConfigView,
    c_on: ConfigView,
    t_d: int,
    t_e: int,
    n: int,
)
    requires
        t.config.enabled,
        t.disabled_since is None,
        !c_off.enabled,
        c_off.interval_minutes == t.config.interval_minutes,
        c_on.enabled,
        c_on.interval_minutes == t.config.interval_minutes,
        t_d <= t_e,
        0 <= t.epoch,
        t.epoch + (t_e - t_d) <= u64::MAX,
    ensures
        remaining_seconds(reconciled_timer(Some(t), c_off, t_d), n)
            == remaining_seconds(t, t_d),
        remaining_seconds(
            reconciled_timer(Some(reconciled_timer(Some(t), c_off, t_d)), c_on, t_e),
            t_e,
        ) == remaining_seconds(t, t_d),
{
}

/// Snooze pushes the remaining time up by exactly the snoozed minutes,
/// clamped at the task's full interval.
pub proof fn lemma_snooze_extends(t: TimerView, minutes: int, now: int)
    requires
        0 <= minutes,
        0 <= t.epoch,
        t.epoch + minutes * 60 <= u64::MAX,
        elapsed_seconds(t, now) <= total_seconds(t.config),
    ensures
        remaining_seconds(timer_snoozed(t, minutes), now) == (
        if remaining_seconds(t, now) + minutes * 60 <= total_seconds(t.config) {
            remaining_seconds(t, now) + minutes * 60
        } else {
            total_seconds(t.config)
        }),
{
}

/// An idle-enter transition restarts every enabled auto-reset task: right
/// after the tick that crosses the threshold, such a task shows a full
/// countdown again.
pub proof fn lemma_idle_enter_resets(s: StateView, i: int, now: int, reading: int)
    requires
        !suspended(s),
        !s.is_idle,
        reading >= s.idle_threshold,
        0 <= i < s.timers.len(),
        s.timers[i].config.enabled,
        s.timers[i].config.auto_reset_on_idle,
        s.timers[i].disabled_since is None,
        0 <= s.timers[i].config.interval_minutes,
    ensures
        tick_tr(s, now, reading).is_idle,
        tick_tr(s, now, reading).timers[i] == timer_restarted(s.timers[i], now),
        remaining_seconds(tick_tr(s, now, reading).timers[i], now)
            == total_seconds(s.timers[i].config),
{
}

/// While the probe reads at or above the threshold no task fires, whatever
/// its elapsed time: an idle engine emits no trigger events.
pub proof fn lemma_no_fire_while_idle(s: StateView, now: int, reading: int)
    requires
        reading >= s.idle_threshold,
    ensures
        fired_events(s, now, reading) == Seq::<EventView>::empty(),
{
}

/// The engine is neither suspended nor idle: ticks evaluate triggers.
pub open spec fn running(s: StateView) -> bool {
    !suspended(s) && !s.is_idle
}

/// The state after `count` consecutive one-second ticks starting at `t0`,
/// the tick at `t0 + k` seeing the idle-probe reading `readings[k]`.
pub open spec fn run_ticks(s: StateView, t0: int, count: nat, readings: Seq<int>) -> StateView
    decreases count,
{
    if count == 0 {
        s
    } else {
        tick_tr(run_ticks(s, t0, (count - 1) as nat, readings), t0 + count - 1, readings[count - 1])
    }
}

/// Task `i` fires during the tick at `t0 + j` of a tick sequence: it is due,
/// its trigger event is emitted, and the tick restarts it to a full
/// countdown.
pub open spec fn fires_in_window(
    s: StateView,
    t0: int,
    readings: Seq<int>,
    i: int,
    j: int,
) -> bool {
    let sj = run_ticks(s, t0, j as nat, readings);
    let now = t0 + j;
    &&& due(sj.timers[i], now)
    &&& fired_events(sj, now, readings[j]).contains(event_of(sj.timers[i].config))
    &&& run_ticks(s, t0, (j + 1) as nat, readings).timers[i] == timer_restarted(
        sj.timers[i],
        now,
    )
    &&& remaining_seconds(run_ticks(s, t0, (j + 1) as nat, readings).timers[i], now)
        == total_seconds(sj.timers[i].config)
}

/// A due timer's trigger event is among the events of a trigger pass.
proof fn lemma_events_of_due_contains(timers: Seq<TimerView>, now: int, i: int)
    requires
        0 <= i < timers.len(),
        due(timers[i], now),
    ensures
        events_of_due(timers, now).contains(event_of(timers[i].config)),
    decreases timers.len(),
{
    if i == timers.len() - 1 {
        let rest = events_of_due(timers.drop_last(), now);
        assert(events_of_due(timers, now)[rest.len() as int] == event_of(timers[i].config));
    } else {
        lemma_events_of_due_contains(timers.drop_last(), now, i);
        let rest = events_of_due(timers.drop_last(), now);
        let k = choose|k: int|
            0 <= k < rest.len() && rest[k] == event_of(timers.drop_last()[i].config);
        assert(events_of_due(timers, now)[k] == event_of(timers[i].config));
    }
}

/// A tick under a below-threshold reading leaves a running engine running,
/// keeps its threshold and task count, and leaves every task that was not
/// due untouched.
proof fn lemma_tick_keeps_running(s: StateView, now: int, reading: int)
    requires
        running(s),
        reading < s.idle_threshold,
    ensures
        running(tick_tr(s, now, reading)),
        tick_tr(s, now, reading).idle_threshold == s.idle_threshold,
        tick_tr(s, now, reading).timers.len() == s.timers.len(),
        forall|i: int|
            0 <= i < s.timers.len() && !due(s.timers[i], now) ==> tick_tr(
                s,
                now,
                reading,
            ).timers[i] == s.timers[i],
{
    assert(idle_update_tr(s, now, reading) == s);
}

/// Until task `i` fires, a sequence of running ticks leaves it untouched:
/// either some tick of the window fired it, or its timer still reads as at
/// the start.
proof fn lemma_unfired_task_is_stable(
    s: StateView,
    t0: int,
    readings: Seq<int>,
    i: int,
    j: int,
)
    requires
        running(s),
        0 <= j <= readings.len(),
        forall|k: int| 0 <= k < j ==> readings[k] < s.idle_threshold,
        0 <= i < s.timers.len(),
        0 <= s.timers[i].config.interval_minutes,
        s.timers[i].disabled_since is None,
    ensures
        running(run_ticks(s, t0, j as nat, readings)),
        run_ticks(s, t0, j as nat, readings).idle_threshold == s.idle_threshold,
        run_ticks(s, t0, j as nat, readings).timers.len() == s.timers.len(),
        (exists|k: int| 0 <= k < j && #[trigger] fires_in_window(s, t0, readings, i, k))
            || run_ticks(s, t0, j as nat, readings).timers[i] == s.timers[i],
    decreases j,
{
    if j > 0 {
        lemma_unfired_task_is_stable(s, t0, readings, i, j - 1);
        let sj1 = run_ticks(s, t0, (j - 1) as nat, readings);
        let now = t0 + j - 1;
        lemma_tick_keeps_running(sj1, now, readings[j - 1]);
        if exists|k: int| 0 <= k < j - 1 && #[trigger] fires_in_window(s, t0, readings, i, k) {
            let k = choose|k: int|
                0 <= k < j - 1 && #[trigger] fires_in_window(s, t0, readings, i, k);
            assert(fires_in_window(s, t0, readings, i, k));
        } else {
            if due(sj1.timers[i], now) {
                lemma_tick_fires(s, t0, readings, i, j - 1);
            }
        }
    }
}

/// If task `i` is due at the tick at `t0 + j` of a running tick sequence,
/// that tick fires it.
proof fn lemma_tick_fires(s: StateView, t0: int, readings: Seq<int>, i: int, j: int)
    requires
        0 <= j < readings.len(),
        0 <= i,
        running(run_ticks(s, t0, j as nat, readings)),
        i < run_ticks(s, t0, j as nat, readings).timers.len(),
        readings[j] < run_ticks(s, t0, j as nat, readings).idle_threshold,
        due(run_ticks(s, t0, j as nat, readings).timers[i], t0 + j),
        run_ticks(s, t0, j as nat, readings).timers[i].disabled_since is None,
        0 <= run_ticks(s, t0, j as nat, readings).timers[i].config.interval_minutes,
    ensures
        fires_in_window(s, t0, readings, i, j),
{
    let sj = run_ticks(s, t0, j as nat, readings);
    let now = t0 + j;
    assert(idle_update_tr(sj, now, readings[j]) == sj);
    lemma_events_of_due_contains(sj.timers, now, i);
    assert(run_ticks(s, t0, (j + 1) as nat, readings) == tick_tr(sj, now, readings[j]));
    assert(tick_tr(sj, now, readings[j]).timers[i] == timer_restarted(sj.timers[i], now));
}

/// Repeating fire: an enabled one-minute task whose countdown started at or
/// before `t0` fires within any window of 61 consecutive running ticks, and
/// the tick that fires it restarts it to a full countdown.
pub proof fn lemma_repeating_fire(s: StateView, t0: int, readings: Seq<int>, i: int)
    requires
        running(s),
        readings.len() >= 61,
        forall|k: int| 0 <= k < 61 ==> readings[k] < s.idle_threshold,
        0 <= i < s.timers.len(),
        s.timers[i].config.enabled,
        !s.timers[i].triggered,
        s.timers[i].config.interval_minutes == 1,
        s.timers[i].disabled_since is None,
        0 <= s.timers[i].epoch <= t0,
    ensures
        exists|j: int| 0 <= j < 61 && #[trigger] fires_in_window(s, t0, readings, i, j),
{
    lemma_unfired_task_is_stable(s, t0, readings, i, 60);
    if !(exists|k: int| 0 <= k < 60 && #[trigger] fires_in_window(s, t0, readings, i, k)) {
        let s60 = run_ticks(s, t0, 60 as nat, readings);
        assert(s60.timers[i] == s.timers[i]);
        assert(due(s60.timers[i], t0 + 60));
        lemma_tick_fires(s, t0, readings, i, 60);
        assert(fires_in_window(s, t0, readings, i, 60));
    }
}

} // verus!
