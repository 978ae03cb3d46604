//! Application state core of a terminal music player: the selection over the
//! displayed track list, the playback state machine and the view mode, driven
//! by discrete user actions.
pub mod app;
pub mod catalog;
pub mod events;
pub mod navigation;
pub mod playback;
pub mod track;
