// Playback engine for a terminal typing-simulation demo: given a static text
// buffer and a stream of keypress events, it decides how much of the buffer to
// reveal per keypress, how to treat newline-led indentation runs, how to
// classify characters for highlighting, and how to cycle across input files.
// Terminal and file I/O live outside this crate; everything here is pure logic.

pub mod advancer;
pub mod classify;
pub mod color;
pub mod cycler;
pub mod events;
pub mod render;
