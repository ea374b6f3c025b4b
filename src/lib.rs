//! Translation of windowing-system input into a toolkit-neutral event model,
//! and the bookkeeping of the frame loop that feeds those events to an
//! application and redraws it.

pub mod chars;
pub mod event;
pub mod frame_loop;
pub mod keys;
pub mod modifiers;
pub mod mouse;
pub mod pixels;
pub mod program;
