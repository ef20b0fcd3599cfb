use desk_reminder::engine::TimerState;
use desk_reminder::task::TaskConfig;

fn cfg(id: &str, minutes: u32, enabled: bool, auto_reset: bool) -> TaskConfig {
    TaskConfig {
        id: id.to_string(),
        title: format!("{} title", id),
        description: format!("{} description", id),
        icon: "bell".to_string(),
        interval_minutes: minutes,
        enabled,
        auto_reset_on_idle: auto_reset,
    }
}

fn remaining_of(state: &TimerState, id: &str, now: u64) -> u64 {
    let rows = state.get_countdowns(now);
    rows.iter().find(|r| r.id == id).expect("task missing").remaining
}

#[test]
fn new_engine_is_empty_with_default_threshold() {
    let s = TimerState::new();
    assert_eq!(s.get_idle_threshold(), 300);
    assert!(s.get_countdowns(0).is_empty());
    assert!(!s.paused);
    assert!(!s.system_locked);
    assert!(!s.overlay_active);
    assert!(!s.is_idle);
}

#[test]
fn sync_creates_timers_with_full_countdown() {
    let mut s = TimerState::new();
    s.sync(&vec![cfg("water", 1, true, false), cfg("stretch", 2, true, true)], 100);
    let rows = s.get_countdowns(100);
    assert_eq!(rows.len(), 2);
    assert_eq!(rows[0].id, "water");
    assert_eq!(rows[0].remaining, 60);
    assert_eq!(rows[0].total, 60);
    assert!(rows[0].enabled);
    assert_eq!(rows[1].id, "stretch");
    assert_eq!(rows[1].remaining, 120);
    assert_eq!(rows[1].total, 120);
}

#[test]
fn sync_drops_absent_tasks() {
    let mut s = TimerState::new();
    s.sync(&vec![cfg("a", 1, true, false), cfg("b", 1, true, false)], 0);
    s.sync(&vec![cfg("b", 1, true, false)], 10);
    let rows = s.get_countdowns(10);
    assert_eq!(rows.len(), 1);
    assert_eq!(rows[0].id, "b");
    // b kept its progress across the sync.
    assert_eq!(rows[0].remaining, 50);
}

#[test]
fn sync_interval_change_restarts_even_when_disabled() {
    let mut s = TimerState::new();
    s.sync(&vec![cfg("a", 1, true, false)], 0);
    s.sync(&vec![cfg("a", 1, false, false)], 20);
    // Frozen at 40 seconds remaining.
    assert_eq!(remaining_of(&s, "a", 50), 40);
    // Interval change resets the countdown outright, clearing the frozen
    // marker: the display counts from the restart instant again.
    s.sync(&vec![cfg("a", 2, false, false)], 60);
    assert_eq!(remaining_of(&s, "a", 60), 120);
    assert_eq!(remaining_of(&s, "a", 90), 90);
}

#[test]
fn sync_same_config_keeps_progress_and_adopts_display_fields() {
    let mut s = TimerState::new();
    s.sync(&vec![cfg("a", 1, true, false)], 0);
    let mut updated = cfg("a", 1, true, true);
    updated.title = "new title".to_string();
    s.sync(&vec![updated], 30);
    assert_eq!(remaining_of(&s, "a", 30), 30);
    let fired = s.tick(60, 0).fired;
    assert_eq!(fired.len(), 1);
    assert_eq!(fired[0].title, "new title");
}

#[test]
fn sync_creates_disabled_task_frozen_at_creation() {
    let mut s = TimerState::new();
    s.sync(&vec![cfg("a", 1, false, false)], 100);
    assert_eq!(remaining_of(&s, "a", 100), 60);
    assert_eq!(remaining_of(&s, "a", 500), 60);
}

#[test]
fn sync_with_empty_list_drops_everything() {
    let mut s = TimerState::new();
    s.sync(&vec![cfg("a", 1, true, false), cfg("b", 2, true, false)], 0);
    s.sync(&vec![], 10);
    assert!(s.get_countdowns(10).is_empty());
}

#[test]
fn largest_interval_and_timestamps_stay_in_bounds() {
    let mut s = TimerState::new();
    s.sync(&vec![cfg("a", u32::MAX, true, false)], 0);
    let total = u32::MAX as u64 * 60;
    assert_eq!(remaining_of(&s, "a", 0), total);
    // Saturated arithmetic keeps every quantity within range even at the
    // end of the timestamp space.
    s.snooze_task(&"a".to_string(), u32::MAX);
    for row in s.get_countdowns(u64::MAX) {
        assert!(row.remaining <= row.total);
    }
}

#[test]
fn pause_is_idempotent() {
    // Pausing twice then resuming compensates the window exactly once.
    let mut once = TimerState::new();
    once.sync(&vec![cfg("a", 1, true, false)], 0);
    once.pause(20);
    once.resume(50);

    let mut twice = TimerState::new();
    twice.sync(&vec![cfg("a", 1, true, false)], 0);
    twice.pause(20);
    twice.pause(35);
    twice.resume(50);

    assert_eq!(remaining_of(&once, "a", 50), remaining_of(&twice, "a", 50));
    assert_eq!(remaining_of(&twice, "a", 50), 40);
}

#[test]
fn pause_resume_conserves_remaining() {
    let mut s = TimerState::new();
    s.sync(&vec![cfg("a", 1, true, false)], 0);
    let before = remaining_of(&s, "a", 25);
    s.pause(25);
    s.resume(25 + 17);
    assert_eq!(remaining_of(&s, "a", 25 + 17), before);
}

#[test]
fn resume_without_pause_is_a_no_op() {
    let mut s = TimerState::new();
    s.sync(&vec![cfg("a", 1, true, false)], 0);
    s.resume(30);
    assert_eq!(remaining_of(&s, "a", 30), 30);
}

#[test]
fn no_tick_processing_while_paused() {
    let mut s = TimerState::new();
    s.sync(&vec![cfg("a", 1, true, false)], 0);
    s.pause(10);
    // Far past due, but the suspended scheduler does nothing.
    let out = s.tick(300, 0);
    assert!(out.fired.is_empty());
    assert!(!out.idle_changed);
}

#[test]
fn remaining_always_within_bounds() {
    let mut s = TimerState::new();
    s.sync(&vec![cfg("a", 1, true, false), cfg("b", 3, false, true)], 0);
    s.snooze_task(&"a".to_string(), 10);
    for now in [0u64, 1, 59, 60, 61, 600, 10_000] {
        for row in s.get_countdowns(now) {
            assert!(row.remaining <= row.total);
        }
    }
}

#[test]
fn repeating_fire_within_61_second_window() {
    let mut s = TimerState::new();
    s.sync(&vec![cfg("a", 1, true, false)], 0);
    let mut fired_at: Option<u64> = None;
    for now in 0u64..=60 {
        let out = s.tick(now, 0);
        if !out.fired.is_empty() {
            assert_eq!(out.fired.len(), 1);
            assert_eq!(out.fired[0].id, "a");
            fired_at = Some(now);
            // Right after firing, the countdown is full again.
            assert_eq!(remaining_of(&s, "a", now), 60);
            break;
        }
    }
    assert_eq!(fired_at, Some(60));
}

#[test]
fn fires_repeatedly_not_once() {
    let mut s = TimerState::new();
    s.sync(&vec![cfg("a", 1, true, false)], 0);
    let mut fires = 0;
    for now in 1u64..=130 {
        fires += s.tick(now, 0).fired.len();
    }
    assert_eq!(fires, 2);
}

#[test]
fn disabled_task_never_fires() {
    let mut s = TimerState::new();
    s.sync(&vec![cfg("a", 1, false, false)], 0);
    for now in 1u64..=200 {
        assert!(s.tick(now, 0).fired.is_empty());
    }
}

#[test]
fn disabled_freeze_and_reenable_folds_dead_time() {
    let mut s = TimerState::new();
    s.sync(&vec![cfg("a", 1, true, false)], 0);
    // Disable at 30 seconds elapsed of a 60-second interval.
    s.sync(&vec![cfg("a", 1, false, false)], 30);
    // Remaining stays 30 at every sampled instant of the 40-second window.
    for now in 30u64..=70 {
        assert_eq!(remaining_of(&s, "a", now), 30);
    }
    // Re-enabling folds the 40 seconds of dead time.
    s.sync(&vec![cfg("a", 1, true, false)], 70);
    assert_eq!(remaining_of(&s, "a", 70), 30);
}

#[test]
fn idle_enter_resets_opted_in_tasks_and_blocks_fires() {
    let mut s = TimerState::new();
    s.set_idle_threshold(10);
    s.sync(&vec![cfg("a", 1, true, true), cfg("b", 1, true, false)], 0);
    // 50% elapsed when the idle threshold is crossed.
    let out = s.tick(30, 10);
    assert!(out.idle_changed);
    assert!(out.fired.is_empty());
    assert!(s.is_idle);
    // The auto-reset task shows a full countdown again; the other does not.
    assert_eq!(remaining_of(&s, "a", 30), 60);
    assert_eq!(remaining_of(&s, "b", 30), 30);
    // No fire while idle, even far past due.
    for now in 31u64..=300 {
        assert!(s.tick(now, now).fired.is_empty());
    }
}

#[test]
fn idle_exit_restarts_opted_in_tasks() {
    let mut s = TimerState::new();
    s.set_idle_threshold(10);
    s.sync(&vec![cfg("a", 1, true, true)], 0);
    let enter = s.tick(30, 50);
    assert!(enter.idle_changed);
    let exit = s.tick(100, 0);
    assert!(exit.idle_changed);
    assert!(!s.is_idle);
    // The return from idle is a fresh start, not a resume.
    assert_eq!(remaining_of(&s, "a", 100), 60);
}

#[test]
fn snooze_extends_remaining_exactly() {
    let mut s = TimerState::new();
    s.sync(&vec![cfg("a", 5, true, false)], 0);
    // 120 seconds elapsed of 300: remaining 180; snoozing one minute
    // makes it exactly 240.
    assert_eq!(remaining_of(&s, "a", 120), 180);
    s.snooze_task(&"a".to_string(), 1);
    assert_eq!(remaining_of(&s, "a", 120), 240);
}

#[test]
fn snooze_is_clamped_at_total() {
    let mut s = TimerState::new();
    s.sync(&vec![cfg("a", 1, true, false)], 0);
    assert_eq!(remaining_of(&s, "a", 30), 30);
    s.snooze_task(&"a".to_string(), 2);
    assert_eq!(remaining_of(&s, "a", 30), 60);
}

#[test]
fn snooze_unknown_id_is_ignored() {
    let mut s = TimerState::new();
    s.sync(&vec![cfg("a", 1, true, false)], 0);
    s.snooze_task(&"ghost".to_string(), 5);
    assert_eq!(remaining_of(&s, "a", 10), 50);
}

#[test]
fn reset_task_restores_full_countdown() {
    let mut s = TimerState::new();
    s.sync(&vec![cfg("a", 1, true, false), cfg("b", 2, true, false)], 0);
    s.reset_task(&"a".to_string(), 45);
    assert_eq!(remaining_of(&s, "a", 45), 60);
    assert_eq!(remaining_of(&s, "b", 45), 75);
}

#[test]
fn reset_unknown_id_is_ignored() {
    let mut s = TimerState::new();
    s.sync(&vec![cfg("a", 1, true, false)], 0);
    s.reset_task(&"ghost".to_string(), 50);
    assert_eq!(remaining_of(&s, "a", 50), 10);
}

#[test]
fn reset_all_restores_every_countdown() {
    let mut s = TimerState::new();
    s.sync(&vec![cfg("a", 1, true, false), cfg("b", 2, true, false)], 0);
    s.reset_all(90);
    assert_eq!(remaining_of(&s, "a", 90), 60);
    assert_eq!(remaining_of(&s, "b", 90), 120);
}

#[test]
fn reset_of_disabled_task_restamps_frozen_display() {
    let mut s = TimerState::new();
    s.sync(&vec![cfg("a", 1, true, false)], 0);
    s.sync(&vec![cfg("a", 1, false, false)], 40);
    assert_eq!(remaining_of(&s, "a", 100), 20);
    s.reset_task(&"a".to_string(), 100);
    assert_eq!(remaining_of(&s, "a", 100), 60);
    assert_eq!(remaining_of(&s, "a", 500), 60);
}

#[test]
fn system_lock_lift_restarts_auto_reset_and_folds_others() {
    let mut s = TimerState::new();
    s.sync(&vec![cfg("a", 1, true, true), cfg("b", 1, true, false)], 0);
    s.set_system_locked(true, 20);
    s.set_system_locked(false, 50);
    // The opted-in task restarted at the unlock instant.
    assert_eq!(remaining_of(&s, "a", 50), 60);
    // The other task had the 30 dead seconds folded in.
    assert_eq!(remaining_of(&s, "b", 50), 40);
}

#[test]
fn overlay_exit_folds_dead_time_for_everyone() {
    let mut s = TimerState::new();
    s.sync(&vec![cfg("a", 1, true, true), cfg("b", 1, true, false)], 0);
    s.set_overlay_active(true, 10);
    // Suspended: the tick does nothing.
    assert!(s.tick(200, 0).fired.is_empty());
    s.set_overlay_active(false, 25);
    // Both tasks got the 15 dead seconds folded in, auto-reset or not.
    assert_eq!(remaining_of(&s, "a", 25), 50);
    assert_eq!(remaining_of(&s, "b", 25), 50);
}

#[test]
fn pause_and_lock_share_one_window() {
    let mut s = TimerState::new();
    s.sync(&vec![cfg("a", 1, true, false)], 0);
    // Pause at 10; lock at 20 joins the running window; resume at 30 folds
    // the 20 dead seconds but keeps the window open for the lock.
    s.pause(10);
    s.set_system_locked(true, 20);
    s.resume(30);
    assert_eq!(remaining_of(&s, "a", 30), 50);
    // Still suspended by the lock.
    assert!(s.tick(100, 0).fired.is_empty());
}

#[test]
fn set_paused_toggle_matches_pause_and_resume() {
    let mut s = TimerState::new();
    s.sync(&vec![cfg("a", 1, true, false)], 0);
    s.set_paused(true, 10);
    assert!(s.paused);
    s.set_paused(false, 30);
    assert!(!s.paused);
    // The 20-second window was compensated.
    assert_eq!(remaining_of(&s, "a", 30), 50);
}

#[test]
fn set_idle_threshold_is_read_back() {
    let mut s = TimerState::new();
    s.set_idle_threshold(42);
    assert_eq!(s.get_idle_threshold(), 42);
}

#[test]
fn below_threshold_reading_is_not_idle() {
    let mut s = TimerState::new();
    s.set_idle_threshold(10);
    let out = s.tick(5, 9);
    assert!(!out.idle_changed);
    assert!(!s.is_idle);
    let out2 = s.tick(6, 10);
    assert!(out2.idle_changed);
    assert!(s.is_idle);
}
