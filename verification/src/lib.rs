//! Core logic of an interview-assistant overlay: prompt assembly, the
//! streaming chat-completion decoder, transcript bookkeeping, audio chunking,
//! screenshot encoding and the stealth watchdog's update planner.
use vstd::prelude::*;

pub mod endpoint;
pub mod screen;
pub mod shortcuts;
pub mod stealth;
pub mod text;
pub mod ai;
pub mod audio;
pub mod clock;
pub mod commands;
