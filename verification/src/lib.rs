//! Host-side protocol engine for the CD321x USB-C power-delivery controller.
//!
//! The engine puts the device at the other end of a USB-C cable into
//! firmware-update or serial mode by way of vendor-defined messages, which
//! the controller sends on the host's behalf.
//!
//! The protocol is a state machine that never waits and never touches a bus.
//! A [`device::Device`] hands out one [`io::Action`] at a time (a raw
//! register read, a raw register write, a pause) and is advanced with the
//! [`io::Event`] that came of it, together with the time in milliseconds.
//! A [`session::Session`] joins a device with a
//! [`backend::ControllerBackend`] and carries out the register accesses
//! itself, so that only the waiting is left to the caller.
//!
//! - [`codec`]: the framing of register blocks.
//! - [`registers`]: the registers, the modes and the power status.
//! - [`vdm`]: the payload of vendor-defined messages.
//! - [`command`]: the execution of one command, and [`polling`]: what holds
//!   of it while it polls.
//! - [`device`]: opening a session, dispatching messages, waiting for the
//!   link and closing, and [`lifecycle`]: what holds of them.
//! - [`host`]: the unlock code of a host.
//! - [`kernel`]: the kernel's own interface to the controller, and the port
//!   through which the engine speaks to it.
//! - [`text`]: what is taken from the standard library for text.

pub mod error;
pub mod codec;
pub mod io;
pub mod registers;
pub mod vdm;
pub mod command;
pub mod polling;
pub mod device;
pub mod lifecycle;
pub mod backend;
pub mod session;
pub mod text;
pub mod host;
pub mod kernel;
