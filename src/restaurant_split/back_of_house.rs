//! Where meals are made.
pub mod kitchen;
