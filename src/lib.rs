//! A USB Audio Class 2.0 function: descriptors, isochronous packet sizing, alternate
//! settings and the class's control requests, over plain values that a USB device stack
//! hands in and takes back.
pub mod codes;
mod config;
pub mod descriptor;
pub mod stream;
pub mod class;
pub mod builder;
pub mod laws;
mod error;

pub use config::{packet_size_holds_whole_frames, packet_size_of, Format, StreamConfig, TerminalType};
pub use error::Error;
