//! Screenshots for the vision model.
pub mod capture;
