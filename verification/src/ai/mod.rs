//! Chat-completion side: prompt assembly and the streaming response decoder.
pub mod client;
pub mod context;
