//! Display client for a media player: mirrors the player's state from sparse
//! change events and renders it onto a 4 x 20 character display.

pub mod alert;
pub mod character_pattern;
pub mod composer;
pub mod decoder;
pub mod display_state;
pub mod lcd;
pub mod lcd_screen;
pub mod messages;
pub mod mirror;
pub mod scroll;
pub mod system;
pub mod text;
pub mod translit;
