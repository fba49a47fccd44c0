pub mod accelerometer;
pub mod assets;
pub mod bluetooth;
pub mod calendar;
pub mod calendar_module;
pub mod civil;
pub mod commands;
pub mod cst816s;
pub mod datetime;
pub mod domain;
pub mod error;
pub mod event_set;
pub mod events;
pub mod fasttrack;
pub mod gc9a01;
pub mod hal_config;
pub mod layers;
pub mod modules;
pub mod ordering;
pub mod packets;
pub mod persistence;
pub mod persister;
pub mod power;
pub mod reference_data;
pub mod reference_time;
pub mod relative;
pub mod reminders;
pub mod render_layout;
pub mod render_plan;
pub mod renderer;
pub mod rtc;
pub mod time_sync;
pub mod touch_lines;

use vstd::prelude::*;

verus! {

/// Sum of two sizes; the caller keeps the sum within `usize`.
pub fn add(left: usize, right: usize) -> (sum: usize)
    requires
        left + right <= usize::MAX,
    ensures
        sum == left + right,
{
    left + right
}

} // verus!
