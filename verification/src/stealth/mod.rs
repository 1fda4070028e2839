//! Keeping the overlay hidden from capture and floating above everything.
pub mod macos;
