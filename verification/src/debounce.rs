use vstd::prelude::*;

verus! {

use crate::mapping::{
    map_slider_to_brightness, map_spec, mapped_brightness_spec, SliderReading, SLIDER_FULL_SCALE,
};

/// Largest change between two slider readings, in thousandths of full
/// travel, that still counts as sensor jitter: a reading this close to the
/// last applied one triggers no new hardware write.
pub const DEBOUNCE_THRESHOLD: u32 = 10;

/// Distance between two slider positions, in thousandths.
pub open spec fn reading_delta(a: int, b: int) -> int {
    if a >= b {
        a - b
    } else {
        b - a
    }
}

/// Whether a fresh reading differs enough from the last applied one to
/// warrant a new mapping-and-apply cycle.
pub open spec fn triggers_update(last: int, current: int) -> bool {
    reading_delta(current, last) > DEBOUNCE_THRESHOLD as int
}

/// The one piece of state the polling loop retains between cycles: the
/// reading at which brightness was last applied, kept only for the debounce
/// comparison.
#[derive(Clone, Copy, Debug, PartialEq, Eq, Structural)]
pub struct MapperState {
    pub last_applied: SliderReading,
}

impl MapperState {
    /// The state right after brightness has been applied for `reading`.
    pub fn new(reading: SliderReading) -> (s: MapperState)
        ensures
            s.last_applied == reading,
    {
        MapperState { last_applied: reading }
    }
}

/// One cycle of the polling loop's decision: maps and returns a new
/// brightness level exactly when the fresh reading has moved past the
/// debounce threshold since the last applied one, recording the reading as
/// applied; a reading within the threshold leaves the state untouched and
/// asks for no write.
pub fn poll_step(state: &mut MapperState, reading: SliderReading, min: u8, max: u8) -> (update:
    Option<u8>)
    requires
        min <= max,
    ensures
        update is Some <==> triggers_update(
            old(state).last_applied.thousandths as int,
            reading.thousandths as int,
        ),
        triggers_update(old(state).last_applied.thousandths as int, reading.thousandths as int)
            ==> {
            &&& final(state).last_applied == reading
            &&& update == Some(
                mapped_brightness_spec(reading.thousandths as int, min as int, max as int) as u8,
            )
            &&& reading.thousandths <= SLIDER_FULL_SCALE ==> update == Some(
                map_spec(reading.thousandths as int, min as int, max as int) as u8,
            )
        },
        !triggers_update(old(state).last_applied.thousandths as int, reading.thousandths as int)
            ==> *final(state) == *old(state) && update is None,
{
    let last: u32 = state.last_applied.thousandths;
    let current: u32 = reading.thousandths;
    let delta: u32 = if current >= last {
        current - last
    } else {
        last - current
    };
    if delta > DEBOUNCE_THRESHOLD {
        state.last_applied = reading;
        Some(map_slider_to_brightness(reading, min, max))
    } else {
        None
    }
}

/// Debounce suppresses jitter: once an update has been triggered by some
/// reading, a consecutive reading that differs from it by no more than the
/// threshold cannot trigger a second one.
pub proof fn lemma_debounce_consecutive(last: int, first: int, second: int)
    requires
        triggers_update(last, first),
        reading_delta(second, first) <= DEBOUNCE_THRESHOLD as int,
    ensures
        !triggers_update(first, second),
{
}

} // verus!
