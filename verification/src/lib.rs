//! A workbook of small verified exercises: collection utilities, string
//! routines, a toy grep, a blog-post state machine, and the helpers around
//! them, each with a contract stating exactly what it computes.

pub mod adder;
pub mod advanced;
pub mod blog;
pub mod cacher;
pub mod coins;
pub mod company;
pub mod deref;
pub mod enums;
pub mod functions;
pub mod generics;
pub mod guessing;
pub mod hello_macro;
pub mod iterators;
pub mod lifetimes;
pub mod loops;
pub mod methods;
pub mod minigrep;
pub mod ownership;
pub mod piglatin;
pub mod rc_list;
pub mod restaurant;
pub mod rusty_blog;
pub mod screen;
pub mod server;
pub mod slices;
pub mod stats;
pub mod structs;
pub mod summaries;
pub mod tracker;
pub mod workout;
