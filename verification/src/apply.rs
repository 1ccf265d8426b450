use vstd::prelude::*;

verus! {

/// Absolute floor of the hardware-safe brightness range, in percent. Fixed
/// independently of the configured mapping range, as a last line of defense
/// against misconfiguration.
pub const HW_MIN_BRIGHTNESS: u8 = 10;

/// Absolute ceiling of the hardware-safe brightness range, in percent.
pub const HW_MAX_BRIGHTNESS: u8 = 100;

/// How many brightness percent make up one native register unit. The
/// backlight register takes `1 ..= REGISTER_MAX` rather than a percentage,
/// so an applied percentage is divided by this before the write. Named
/// explicitly so the unit scaling can be corrected without touching the
/// logic.
pub const REGISTER_SCALE_DIVISOR: u8 = 10;

/// Smallest value the backlight register accepts.
pub const REGISTER_MIN: u32 = 1;

/// Largest value the backlight register accepts.
pub const REGISTER_MAX: u32 = 10;

/// The hardware-safe clamp: any requested level, however far out of range,
/// lands in `[HW_MIN_BRIGHTNESS, HW_MAX_BRIGHTNESS]`; a level already inside
/// passes through unchanged.
pub open spec fn clamp_to_safe_spec(requested: int) -> int {
    if requested < HW_MIN_BRIGHTNESS as int {
        HW_MIN_BRIGHTNESS as int
    } else if requested > HW_MAX_BRIGHTNESS as int {
        HW_MAX_BRIGHTNESS as int
    } else {
        requested
    }
}

/// The native register units that an applied brightness percentage scales
/// to: divided by `REGISTER_SCALE_DIVISOR` and held inside the register's
/// own `[REGISTER_MIN, REGISTER_MAX]` range.
pub open spec fn register_units_spec(applied: int) -> int {
    let scaled = applied / (REGISTER_SCALE_DIVISOR as int);
    if scaled < REGISTER_MIN as int {
        REGISTER_MIN as int
    } else if scaled > REGISTER_MAX as int {
        REGISTER_MAX as int
    } else {
        scaled
    }
}

/// Clamps a requested brightness level into the hardware-safe absolute range
/// and returns the level that is actually to be applied. The caller that
/// owns the backlight register performs the write with
/// `register_units(applied)`; everything numeric about the write is decided
/// here.
pub fn set_brightness(requested: i32) -> (applied: u8)
    ensures
        applied == clamp_to_safe_spec(requested as int),
        HW_MIN_BRIGHTNESS <= applied <= HW_MAX_BRIGHTNESS,
{
    if requested < HW_MIN_BRIGHTNESS as i32 {
        HW_MIN_BRIGHTNESS
    } else if requested > HW_MAX_BRIGHTNESS as i32 {
        HW_MAX_BRIGHTNESS
    } else {
        requested as u8
    }
}

/// Scales an applied brightness percentage into the backlight register's
/// native units.
pub fn register_units(applied: u8) -> (units: u32)
    ensures
        units == register_units_spec(applied as int),
        REGISTER_MIN <= units <= REGISTER_MAX,
{
    let scaled: u32 = (applied / REGISTER_SCALE_DIVISOR) as u32;
    if scaled < REGISTER_MIN {
        REGISTER_MIN
    } else if scaled > REGISTER_MAX {
        REGISTER_MAX
    } else {
        scaled
    }
}

/// The hardware-safe clamp is idempotent: clamping an already-clamped level
/// changes nothing, so applying the same requested level twice reports the
/// same applied value both times.
pub proof fn lemma_clamp_idempotent(requested: int)
    ensures
        clamp_to_safe_spec(clamp_to_safe_spec(requested)) == clamp_to_safe_spec(requested),
{
}

/// The clamp never leaves the hardware-safe range, whatever was requested.
pub proof fn lemma_clamp_in_safe_range(requested: int)
    ensures
        HW_MIN_BRIGHTNESS as int <= clamp_to_safe_spec(requested) <= HW_MAX_BRIGHTNESS as int,
{
}

} // verus!
