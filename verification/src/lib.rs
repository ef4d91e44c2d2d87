//! A verified byte-pump core: copy an input stream to an output stream in
//! fixed-size chunks, with a shared progress counter and a rate reporter.
//!
//! The library models the two copy strategies (kernel transfer and buffered
//! read/write) over abstract stream traits, proves that every successful run
//! moves the input content to the output byte for byte, and provides the
//! reporter's tick logic. Real descriptors, threads and the display live
//! outside the library.

pub mod counter;
pub mod engine;
pub mod error;
pub mod laws;
pub mod reporter;
pub mod sim;
pub mod stream;
