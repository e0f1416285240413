//! Where guests are received.
pub mod hosting;
