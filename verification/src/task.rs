//! Executable data types of the engine and their mathematical views.

use vstd::prelude::*;

use crate::model::{
    ConfigView, CountdownView, EventView, TimerView, elapsed_seconds, event_of,
    remaining_seconds, total_seconds,
};

verus! {

/// One task's externally supplied configuration.  The engine stores a copy;
/// the identifier is unique and stable across syncs, the display fields are
/// opaque, and the interval is a positive number of minutes.
pub struct TaskConfig {
    pub id: String,
    pub title: String,
    pub description: String,
    pub icon: String,
    pub interval_minutes: u32,
    pub enabled: bool,
    pub auto_reset_on_idle: bool,
}

impl View for TaskConfig {
    type V = ConfigView;

    open spec fn view(&self) -> ConfigView {
        ConfigView {
            id: self.id@,
            title: self.title@,
            description: self.description@,
            icon: self.icon@,
            interval_minutes: self.interval_minutes as int,
            enabled: self.enabled,
            auto_reset_on_idle: self.auto_reset_on_idle,
        }
    }
}

impl Clone for TaskConfig {
    fn clone(&self) -> (r: Self)
        ensures
            r@ == self@,
    {
        TaskConfig {
            id: self.id.clone(),
            title: self.title.clone(),
            description: self.description.clone(),
            icon: self.icon.clone(),
            interval_minutes: self.interval_minutes,
            enabled: self.enabled,
            auto_reset_on_idle: self.auto_reset_on_idle,
        }
    }
}

/// One task's countdown timer.
pub struct TaskTimer {
    /// The task's most recent configuration.
    pub config: TaskConfig,
    /// The timestamp the countdown is measured from.
    pub epoch: u64,
    /// Scratch flag; every operation that sets it clears it again within the
    /// same step, so between operations it is never observably `true`.
    pub triggered: bool,
    /// The timestamp at which the task was last disabled, if it is disabled.
    pub disabled_since: Option<u64>,
}

impl View for TaskTimer {
    type V = TimerView;

    open spec fn view(&self) -> TimerView {
        TimerView {
            config: self.config@,
            epoch: self.epoch as int,
            triggered: self.triggered,
            disabled_since: match self.disabled_since {
                Some(d) => Some(d as int),
                None => None,
            },
        }
    }
}

impl Clone for TaskTimer {
    fn clone(&self) -> (r: Self)
        ensures
            r@ == self@,
    {
        TaskTimer {
            config: self.config.clone(),
            epoch: self.epoch,
            triggered: self.triggered,
            disabled_since: self.disabled_since,
        }
    }
}

impl TaskTimer {
    /// The task's full interval in seconds.
    pub fn total_seconds(&self) -> (r: u64)
        ensures
            r as int == total_seconds(self.config@),
    {
        (self.config.interval_minutes as u64) * 60
    }

    /// Seconds of countdown consumed as of `now`; a disabled task is frozen
    /// at the moment it was disabled.
    pub fn elapsed_seconds(&self, now: u64) -> (r: u64)
        ensures
            r as int == elapsed_seconds(self@, now as int),
    {
        let effective = match self.disabled_since {
            Some(d) => d,
            None => now,
        };
        effective.saturating_sub(self.epoch)
    }

    /// Seconds left until the task is due, clamped to `[0, total_seconds]`.
    pub fn remaining_seconds(&self, now: u64) -> (r: u64)
        ensures
            r as int == remaining_seconds(self@, now as int),
            r as int <= total_seconds(self.config@),
    {
        self.total_seconds().saturating_sub(self.elapsed_seconds(now))
    }
}

/// The plain data of a fired reminder, handed to the embedding layer for
/// notification delivery.
pub struct TriggerEvent {
    pub id: String,
    pub title: String,
    pub description: String,
    pub icon: String,
}

impl View for TriggerEvent {
    type V = EventView;

    open spec fn view(&self) -> EventView {
        EventView {
            id: self.id@,
            title: self.title@,
            description: self.description@,
            icon: self.icon@,
        }
    }
}

impl TriggerEvent {
    /// The event announcing that the task configured by `c` has fired.
    pub fn for_config(c: &TaskConfig) -> (r: Self)
        ensures
            r@ == event_of(c@),
    {
        TriggerEvent {
            id: c.id.clone(),
            title: c.title.clone(),
            description: c.description.clone(),
            icon: c.icon.clone(),
        }
    }
}

/// One row of the countdown snapshot shown by the display layer.
pub struct CountdownEntry {
    pub id: String,
    pub remaining: u64,
    pub total: u64,
    pub enabled: bool,
}

impl View for CountdownEntry {
    type V = CountdownView;

    open spec fn view(&self) -> CountdownView {
        CountdownView {
            id: self.id@,
            remaining: self.remaining as int,
            total: self.total as int,
            enabled: self.enabled,
        }
    }
}

/// Everything one scheduler tick decides: which tasks fired, and whether the
/// idle state flipped this tick.
pub struct TickOutcome {
    pub fired: Vec<TriggerEvent>,
    pub idle_changed: bool,
}

} // verus!
