//! Control and status protocol of the detachable-base (DTX) subsystem found on
//! convertible devices, together with the values of its sibling subsystems:
//! performance mode, platform profile and the discrete GPU.
//!
//! The library performs no I/O. Everything in it maps plain values to plain
//! values: raw status codes to typed values, frame bytes to events, replies of
//! the driver to results, the text of attribute files to settings. The caller
//! owns the device files and performs the reads and the control calls that the
//! library asks for.
//!
//! - [`dtx`] is the protocol of the detachment system: status codes, strict
//!   and lenient decoders, control operations and the event stream.
//! - [`perf`], [`profile`], [`dgpu`], [`pci`] and [`latch`] hold the values of
//!   the other subsystems and what their attribute files spell.
//! - [`stats`] is the overview of all of them.
//! - [`error`] holds the shared error types, [`text`] the text helpers.

#![allow(unused_imports)]

pub mod dgpu;
pub mod dtx;
pub mod error;
pub mod latch;
pub mod pci;
pub mod perf;
pub mod profile;
pub mod stats;
pub mod text;
