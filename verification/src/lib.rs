//! Maps a handheld console's depth-slider position to a screen-brightness
//! level: a linear slider-to-brightness mapping, a hardware-safe clamp with
//! register-unit scaling, and a debounce step that decides when a new
//! hardware write is warranted. Slider positions are carried as thousandths
//! of full travel, so the numeric logic is exact integer arithmetic.

pub mod apply;
pub mod debounce;
pub mod mapping;
