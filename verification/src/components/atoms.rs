//! The smallest display units: each renders one group of values.

pub mod age_display;
pub mod ars_button;
pub mod character_name;
pub mod character_portrait;
pub mod circle_border;
pub mod decrepitude_display;
pub mod flaw_display;
pub mod personality_display;
pub mod reputation_display;
pub mod soak_size_display;
pub mod virtue_display;
pub mod warp_display;
pub mod wound_display;
