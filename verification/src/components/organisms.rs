//! Layout regions of the page, and the page itself.

pub mod character_info;
pub mod details_display;
pub mod nav_bar;
pub mod page_display;
pub mod side_bar;
