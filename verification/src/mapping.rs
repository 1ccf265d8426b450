use vstd::prelude::*;

verus! {

use vstd::arithmetic::div_mod::{lemma_div_by_multiple, lemma_div_is_ordered};
use vstd::arithmetic::mul::{lemma_mul_inequality, lemma_mul_is_commutative, lemma_mul_upper_bound};

/// Thousandths of full slider travel that make up the whole range: a slider
/// position of `SLIDER_FULL_SCALE` thousandths means the slider is at its
/// far end.
pub const SLIDER_FULL_SCALE: u32 = 1000;

/// One sampled position of the physical slider, in thousandths of full
/// travel. Nominal readings lie in `0 ..= SLIDER_FULL_SCALE`; sensor noise
/// may push a reading above full scale, and the mapping does not pre-clamp
/// such readings (the hardware-safe clamp in `apply` is the last line of
/// defense).
#[derive(Clone, Copy, Debug, PartialEq, Eq, Structural)]
pub struct SliderReading {
    pub thousandths: u32,
}

/// Linear interpolation from a slider position to a brightness level:
/// `min + (max - min) * s / SLIDER_FULL_SCALE`, truncated toward zero.
pub open spec fn map_spec(s: int, min: int, max: int) -> int {
    min + ((max - min) * s) / (SLIDER_FULL_SCALE as int)
}

/// What a too-large interpolation result collapses to when forced into one
/// brightness byte: values above 255 saturate at 255 (negative values cannot
/// arise for in-order `min <= max` and a nonnegative reading).
pub open spec fn saturate_u8(v: int) -> int {
    if v > 255 {
        255
    } else if v < 0 {
        0
    } else {
        v
    }
}

/// The brightness level the mapper produces for a reading, as it fits in a
/// byte: the linear interpolation, saturated.
pub open spec fn mapped_brightness_spec(s: int, min: int, max: int) -> int {
    saturate_u8(map_spec(s, min, max))
}

impl SliderReading {
    /// A reading at the given thousandths of full travel.
    pub fn new(thousandths: u32) -> (r: SliderReading)
        ensures
            r.thousandths == thousandths,
    {
        SliderReading { thousandths }
    }

    /// Whether this reading lies in the nominal range of the physical
    /// slider.
    pub fn is_nominal(&self) -> (r: bool)
        ensures
            r == (self.thousandths <= SLIDER_FULL_SCALE),
    {
        self.thousandths <= SLIDER_FULL_SCALE
    }
}

/// Converts a slider position into a brightness level by linear
/// interpolation between `min` and `max`, truncating toward zero. The result
/// is not clamped against the hardware-safe range: a noisy reading above
/// full scale yields a level above `max` (saturated only at the byte's own
/// limit), and `apply::set_brightness` is responsible for the safety clamp.
pub fn map_slider_to_brightness(slider: SliderReading, min: u8, max: u8) -> (brightness: u8)
    requires
        min <= max,
    ensures
        brightness == mapped_brightness_spec(slider.thousandths as int, min as int, max as int),
        slider.thousandths <= SLIDER_FULL_SCALE ==> min <= brightness <= max,
        slider.thousandths <= SLIDER_FULL_SCALE ==> brightness == map_spec(
            slider.thousandths as int,
            min as int,
            max as int,
        ),
{
    let span: u64 = (max - min) as u64;
    let s: u64 = slider.thousandths as u64;
    proof {
        lemma_mul_upper_bound(span as int, 255, s as int, u32::MAX as int);
    }
    let scaled: u64 = span * s;
    let offset: u64 = scaled / (SLIDER_FULL_SCALE as u64);
    proof {
        lemma_div_is_ordered(0, scaled as int, SLIDER_FULL_SCALE as int);
        if slider.thousandths <= SLIDER_FULL_SCALE {
            lemma_mul_inequality(s as int, SLIDER_FULL_SCALE as int, span as int);
            lemma_mul_is_commutative(s as int, span as int);
            lemma_mul_is_commutative(SLIDER_FULL_SCALE as int, span as int);
            lemma_div_is_ordered(
                scaled as int,
                span as int * SLIDER_FULL_SCALE as int,
                SLIDER_FULL_SCALE as int,
            );
            lemma_div_by_multiple(span as int, SLIDER_FULL_SCALE as int);
        }
    }
    let value: u64 = (min as u64) + offset;
    if value > 255 {
        255u8
    } else {
        value as u8
    }
}

/// The mapping is monotonically non-decreasing in the slider position: a
/// slider pushed further never yields a dimmer level.
pub proof fn lemma_map_monotonic(s1: int, s2: int, min: int, max: int)
    requires
        0 <= s1 <= s2,
        min <= max,
    ensures
        map_spec(s1, min, max) <= map_spec(s2, min, max),
{
    lemma_mul_inequality(s1, s2, max - min);
    lemma_mul_is_commutative(s1, max - min);
    lemma_mul_is_commutative(s2, max - min);
    lemma_div_is_ordered((max - min) * s1, (max - min) * s2, SLIDER_FULL_SCALE as int);
}

/// At the ends of the nominal range the mapping is exact despite the
/// truncation: a slider at rest maps to `min` and a slider at full travel
/// maps to `max`.
pub proof fn lemma_map_endpoints(min: int, max: int)
    requires
        min <= max,
    ensures
        map_spec(0, min, max) == min,
        map_spec(SLIDER_FULL_SCALE as int, min, max) == max,
{
    lemma_div_by_multiple(0, SLIDER_FULL_SCALE as int);
    lemma_div_by_multiple(max - min, SLIDER_FULL_SCALE as int);
}

/// Every nominal reading maps into the configured `[min, max]` range.
pub proof fn lemma_map_in_range(s: int, min: int, max: int)
    requires
        0 <= s <= SLIDER_FULL_SCALE,
        min <= max,
    ensures
        min <= map_spec(s, min, max) <= max,
{
    lemma_map_endpoints(min, max);
    lemma_map_monotonic(0, s, min, max);
    lemma_map_monotonic(s, SLIDER_FULL_SCALE as int, min, max);
}

} // verus!
