//! Stacking containers.
pub mod vstack;
