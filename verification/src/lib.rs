//! A chat client engine for a Twitch-style IRC protocol, with the screen
//! geometry and tab bookkeeping of its terminal front end.

pub mod channel;
pub mod display_channel;
pub mod geometry;
pub mod root_view;
pub mod tab;
pub mod tabs;
pub mod text;
pub mod twitch;
