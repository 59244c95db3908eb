//! The decision core of the OpenHarmony backend of the windowing library:
//! key-code mapping, input-event translation, the per-window state mirror
//! and its bridge commands, the title-bar (decor) correction watcher, the
//! main-loop event dispatch and the monitor readings.

pub mod ids;
pub mod keyboard;
pub mod keycodes;
pub mod input;
pub mod geometry;
pub mod style;
pub mod window;
pub mod decor;
pub mod event_loop;
pub mod monitor;
