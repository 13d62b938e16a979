//! Close-to-tray core for a single-window desktop shell.
//!
//! The library holds the logic that a tray-based application shell needs:
//! a preference store for the close-to-tray flag, the dispatch of tray menu
//! and tray icon events, and the guard that decides whether a window close
//! request is intercepted (hide to tray) or allowed to proceed. The
//! windowing toolkit itself (icon rendering, menu construction, the event
//! loop) is a platform collaborator: the surrounding application feeds
//! events in and performs the returned actions.

pub mod machine;
pub mod prefs;
pub mod tray;
