//! Small verified programs on ownership, collections, error handling, generics,
//! traits, smart pointers and state machines, together with the decision logic
//! of a thread-pool web server.

pub mod adder;
pub mod advanced;
pub mod aggregator;
pub mod blog_oop;
pub mod blog_rust;
pub mod collections;
pub mod concurrency;
pub mod employees;
pub mod enums;
pub mod error_handling;
pub mod generics;
pub mod gui;
pub mod hello;
pub mod hello_macro;
pub mod minigrep;
pub mod patterns;
pub mod restaurant;
pub mod restaurant_split;
pub mod shirt_company;
pub mod smart_pointers;
pub mod structs;
pub mod text;
pub mod writing_tests;
