//! Verified core of a virtual serial port: line-discipline settings,
//! line-buffered command recognition, and the actor step logic that the
//! surrounding process drives against a pseudo-terminal device.

pub mod cleanup;
pub mod cli;
pub mod commands;
pub mod heartbeat;
pub mod io_handler;
pub mod linebuf;
pub mod pty;

use vstd::prelude::*;

verus! {

} // verus!
