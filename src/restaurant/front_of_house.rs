//! Where guests are received and served.
pub mod hosting;
mod serving;
