use vstd::prelude::*;

verus! {

/// The fixed simulation step, in milliseconds.
pub const TIME_STEP_MS: u64 = 250;

/// When the last tick fired, in milliseconds since start.
pub struct LastUpdateTime {
    pub time: u64,
}

/// Whether a simulation step is due in the current frame.
pub struct Tick {
    pub allowed: bool,
}

impl Tick {
    pub fn new() -> (r: Self)
        ensures
            r.allowed,
    {
        Tick { allowed: true }
    }
}

/// Whether a tick is due at time `now` when the last one fired at `last`.
pub open spec fn tick_due(now: u64, last: u64) -> bool {
    now >= last && now - last >= TIME_STEP_MS
}

/// Fires a tick when at least one step has elapsed since the last one and
/// records the time; otherwise marks no tick due.
pub fn track_step_time(now: u64, last_update_time: &mut LastUpdateTime, tick: &mut Tick)
    ensures
        final(tick).allowed == tick_due(now, old(last_update_time).time),
        final(last_update_time).time == if tick_due(now, old(last_update_time).time) {
            now
        } else {
            old(last_update_time).time
        },
{
    if now >= last_update_time.time && now - last_update_time.time >= TIME_STEP_MS {
        last_update_time.time = now;
        tick.allowed = true;
    } else {
        tick.allowed = false;
    }
}

} // verus!
