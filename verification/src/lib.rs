//! Board support for the storage path of the RK3568: the eMMC block adapter
//! and the selector of the eMMC bus clock.
//!
//! The crate holds the decisions of both drivers and none of the hardware
//! access. Every operation that needs the controller or the clock registers is
//! split in two: a function that checks the request and names the one hardware
//! access to perform, and a function that turns what the hardware answered
//! into the caller's result. Whoever owns the hardware performs the access in
//! between.
//!
//! A block is read in three steps. `EmmcDriver::read_block` takes the logical
//! block and the place of the caller's buffer, and gives the transfer for the
//! protocol engine or the reason to leave the engine alone. The owner of the
//! engine performs the transfer on the buffer. `EmmcDriver::complete` takes
//! the engine's answer and gives the caller's result. Writes go the same way.
//!
//! A clock request is decided by `ClkDriver::get_rate` or
//! `ClkDriver::set_rate`, which name the register access or the question for
//! the platform's helper. `Readout::rate` turns the register's value into the
//! reported rate, and `surface_helper` turns the helper's answer into the
//! caller's result.

pub mod error;
pub mod provider;
pub mod block;
pub mod clk;

pub use block::{BlockRequest, BufferRegion, Direction, EmmcDriver, BLOCK_SIZE, OFFSET};
pub use clk::{ClkDriver, ClockAccess, ClockOp, ClockSource, Readout, EMMC_CLK_ID};
pub use error::{deal_emmc_err, ArgumentFault, EngineError, ErrorKind};
pub use provider::{init_clk, ClkError, EmmcClk};
