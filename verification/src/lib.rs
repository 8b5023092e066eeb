//! A client for the Archipelago multiworld protocol, written as a machine that
//! performs no input or output of its own.
//!
//! Every operation of the client is a sequence of steps. A step names one thing
//! that has to be done outside (open a stream, write a text, read a frame, parse
//! a text), and the machine is then told how that went and names the next one.
//! What to send, what to keep, what to hand out, in which order, and what counts
//! as a failure is decided here, and proved.
pub mod client;
pub mod dial;
pub mod error;
pub mod exchange;
pub mod frame;
pub mod laws;
pub mod outside;
pub mod protocol;
pub mod receiver;
pub mod room;
pub mod sender;
pub mod startup;
