//! Player selection and scrolling display state for a status-bar
//! "now playing" line.
//!
//! The library decides; it does no input or output. A driver lists the bus
//! names, fetches the status and the metadata of the player that
//! [`engine::State::fetch_target`] names, hands both to the
//! [`engine::State`], and prints the line that comes back.
//!
//! - [`names`]: which bus names are players, and their display names.
//! - [`selection`]: the selected player, across changes of the player list.
//! - [`metadata`] and [`message`]: from a metadata record to the message.
//! - [`controls`]: the icon and the click regions around the text.
//! - [`width`] and [`scroll`]: display width, rotation, the printed window.
//! - [`engine`]: the state, and what a tick and a signal do to it.
//! - [`config`]: the settings.
//! - [`text`] and [`decimal`]: helpers on strings and numbers.

pub mod config;
pub mod controls;
pub mod decimal;
pub mod engine;
pub mod message;
pub mod metadata;
pub mod names;
pub mod scroll;
pub mod selection;
pub mod text;
pub mod width;
