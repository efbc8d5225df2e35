//! The selector of the eMMC bus clock.
//!
//! The clock tree of the RK3568 offers the eMMC bus a fixed set of sources.
//! A requested frequency either is the frequency of one of them, or is refused:
//! nothing is rounded, and no nearby source is taken in its place. The selector
//! serves one clock, the eMMC bus clock, and refuses every other identifier
//! before anything is read or written.
//!
//! Platforms reach the clock in three ways: through the clock-select register,
//! whose value is reported as it is or reduced to the select field, or through
//! a helper of the platform that does the clock arithmetic itself.

use vstd::prelude::*;
use crate::error::{ArgumentFault, ErrorKind};

verus! {

/// The identifier of the eMMC bus clock, the only clock served.
pub const EMMC_CLK_ID: usize = 0x7c;

/// One megahertz, in Hz.
pub const MHZ: u64 = 1_000_000;

/// One kilohertz, in Hz.
pub const KHZ: u64 = 1_000;

/// The position of the eMMC select field in the clock-select register.
pub const CCLK_EMMC_POS: u32 = 12;

/// The bits of the eMMC select field in the clock-select register.
pub const CCLK_EMMC_MASK: u32 = 0x7000;

/// The value of the select field for the crystal input.
pub const SELECT_XIN_SOC0_MUX: u32 = 0x0000;

/// The value of the select field for the general PLL at 200 MHz.
pub const SELECT_GPL_DIV_200M: u32 = 0x1000;

/// The value of the select field for the general PLL at 150 MHz.
pub const SELECT_GPL_DIV_150M: u32 = 0x2000;

/// The value of the select field for the codec PLL at 100 MHz.
pub const SELECT_CPL_DIV_100M: u32 = 0x3000;

/// The value of the select field for the codec PLL at 50 MHz.
pub const SELECT_CPL_DIV_50M: u32 = 0x4000;

/// The value of the select field for the low-speed path.
pub const SELECT_SOC0_375K: u32 = 0x5000;

/// The sources that the clock tree offers the eMMC bus.
#[derive(Clone, Copy, Debug, PartialEq, Eq)]
pub enum ClockSource {
    /// The crystal input, 24 MHz.
    XinSoc0Mux,
    /// The general PLL divided down to 200 MHz.
    GplDiv200M,
    /// The general PLL divided down to 150 MHz.
    GplDiv150M,
    /// The codec PLL divided down to 100 MHz.
    CplDiv100M,
    /// The codec PLL divided down to 50 MHz.
    CplDiv50M,
    /// The low-speed path, 375 kHz.
    Soc0Div375K,
}

impl ClockSource {
    /// The number of the source at the multiplexer.
    pub open spec fn mux_index(self) -> nat {
        match self {
            ClockSource::XinSoc0Mux => 0,
            ClockSource::GplDiv200M => 1,
            ClockSource::GplDiv150M => 2,
            ClockSource::CplDiv100M => 3,
            ClockSource::CplDiv50M => 4,
            ClockSource::Soc0Div375K => 5,
        }
    }

    /// The value of the select field that chooses the source: its number at
    /// the multiplexer, moved to the field's position.
    pub open spec fn select_bits(self) -> nat {
        self.mux_index() * 0x1000
    }

    /// The value to write into the select field to choose the source.
    pub fn selector(&self) -> (bits: u32)
        ensures
            bits == self.select_bits(),
            bits & !CCLK_EMMC_MASK == 0,
    {
        let bits: u32 = match self {
            ClockSource::XinSoc0Mux => SELECT_XIN_SOC0_MUX,
            ClockSource::GplDiv200M => SELECT_GPL_DIV_200M,
            ClockSource::GplDiv150M => SELECT_GPL_DIV_150M,
            ClockSource::CplDiv100M => SELECT_CPL_DIV_100M,
            ClockSource::CplDiv50M => SELECT_CPL_DIV_50M,
            ClockSource::Soc0Div375K => SELECT_SOC0_375K,
        };
        assert(bits & !0x7000u32 == 0) by (bit_vector)
            requires
                bits == 0x0000 || bits == 0x1000 || bits == 0x2000 || bits == 0x3000 || bits
                    == 0x4000 || bits == 0x5000,
        ;
        bits
    }
}

/// The frequencies that can be requested.
pub open spec fn supported_rate(rate: u64) -> bool {
    rate == 24 * MHZ || rate == 50 * MHZ || rate == 52 * MHZ || rate == 100 * MHZ || rate == 150
        * MHZ || rate == 200 * MHZ || rate == 375 * KHZ || rate == 400 * KHZ
}

/// The source that produces a requested frequency, if there is one.
pub open spec fn source_for_rate(rate: u64) -> Option<ClockSource> {
    if rate == 24 * MHZ {
        Some(ClockSource::XinSoc0Mux)
    } else if rate == 50 * MHZ || rate == 52 * MHZ {
        Some(ClockSource::CplDiv50M)
    } else if rate == 100 * MHZ {
        Some(ClockSource::CplDiv100M)
    } else if rate == 150 * MHZ {
        Some(ClockSource::GplDiv150M)
    } else if rate == 200 * MHZ {
        Some(ClockSource::GplDiv200M)
    } else if rate == 375 * KHZ || rate == 400 * KHZ {
        Some(ClockSource::Soc0Div375K)
    } else {
        None
    }
}

/// Looks up the source for a requested frequency in Hz. The frequency must be
/// one of the supported ones exactly.
pub fn select_source(rate: u64) -> (source: Option<ClockSource>)
    ensures
        source == source_for_rate(rate),
        source is Some <==> supported_rate(rate),
{
    match rate {
        24_000_000 => Some(ClockSource::XinSoc0Mux),
        52_000_000 | 50_000_000 => Some(ClockSource::CplDiv50M),
        100_000_000 => Some(ClockSource::CplDiv100M),
        150_000_000 => Some(ClockSource::GplDiv150M),
        200_000_000 => Some(ClockSource::GplDiv200M),
        400_000 | 375_000 => Some(ClockSource::Soc0Div375K),
        _ => None,
    }
}

/// How the value of the clock-select register becomes the reported rate.
#[derive(Clone, Copy, Debug, PartialEq, Eq)]
pub enum Readout {
    /// The register's value is reported as it is.
    Verbatim,
    /// The register's value is moved down by the position of the select
    /// field, and the field is reported.
    Field,
}

impl Readout {
    /// The rate reported for a value of the clock-select register.
    pub open spec fn reported(self, register: u32) -> nat {
        match self {
            Readout::Verbatim => register as nat,
            Readout::Field => register as nat / 0x1000,
        }
    }

    /// Turns the value read from the clock-select register into the rate to
    /// report.
    pub fn rate(&self, register: u32) -> (rate: u64)
        ensures
            rate == self.reported(register),
            *self == Readout::Field ==> rate == register >> CCLK_EMMC_POS,
    {
        match self {
            Readout::Verbatim => register as u64,
            Readout::Field => {
                assert(register >> 12u32 == register / 0x1000u32) by (bit_vector);
                (register >> CCLK_EMMC_POS) as u64
            },
        }
    }
}

/// How a platform reaches the eMMC bus clock.
#[derive(Clone, Copy, Debug, PartialEq, Eq)]
pub enum ClockAccess {
    /// Through the clock-select register, read out in the given way.
    Register(Readout),
    /// Through a helper of the platform that does the clock arithmetic.
    Helper,
}

/// The one access to the clock that an accepted request asks for.
#[derive(Clone, Copy, Debug, PartialEq, Eq)]
pub enum ClockOp {
    /// Read the clock-select register and report its value in the given way.
    ReadSelect(Readout),
    /// Write the source into the select field of the clock-select register.
    WriteSelect(ClockSource),
    /// Ask the helper for the rate.
    AskHelper,
    /// Hand the helper the requested rate.
    TellHelper(u64),
}

/// What a question for the rate of clock `id` leads to.
pub open spec fn rate_query(access: ClockAccess, id: usize) -> Result<ClockOp, ErrorKind> {
    if id != EMMC_CLK_ID {
        Err(ErrorKind::InvalidArgument(ArgumentFault::ClockId))
    } else {
        match access {
            ClockAccess::Register(readout) => Ok(ClockOp::ReadSelect(readout)),
            ClockAccess::Helper => Ok(ClockOp::AskHelper),
        }
    }
}

/// What a request to run clock `id` at `rate` leads to.
pub open spec fn rate_update(access: ClockAccess, id: usize, rate: u64) -> Result<
    ClockOp,
    ErrorKind,
> {
    if id != EMMC_CLK_ID {
        Err(ErrorKind::InvalidArgument(ArgumentFault::ClockId))
    } else {
        match access {
            ClockAccess::Helper => Ok(ClockOp::TellHelper(rate)),
            ClockAccess::Register(_) => match source_for_rate(rate) {
                Some(source) => Ok(ClockOp::WriteSelect(source)),
                None => Err(ErrorKind::InvalidArgument(ArgumentFault::ClockRate)),
            },
        }
    }
}

/// The selector of the eMMC bus clock in the clock and reset unit.
#[derive(Clone, Copy, Debug, PartialEq, Eq)]
pub struct ClkDriver {
    /// The base address of the clock and reset unit. It must be the address of
    /// the unit's memory-mapped register block, and nothing else may use that
    /// block while the selector lives.
    pub cru_address: u64,
    /// How the platform reaches the clock.
    pub access: ClockAccess,
}

impl ClkDriver {
    /// A selector for the unit whose registers start at `cru_address`. It
    /// works on the clock-select register and reports the select field.
    pub fn new(cru_address: u64) -> (driver: Self)
        ensures
            driver == (ClkDriver { cru_address, access: ClockAccess::Register(Readout::Field) }),
    {
        ClkDriver { cru_address, access: ClockAccess::Register(Readout::Field) }
    }

    /// A selector for the unit whose registers start at `cru_address`, which
    /// reaches the clock in the given way.
    pub fn with_access(cru_address: u64, access: ClockAccess) -> (driver: Self)
        ensures
            driver == (ClkDriver { cru_address, access }),
    {
        ClkDriver { cru_address, access }
    }

    /// Opens the device. Nothing happens.
    pub fn open(&mut self) -> (r: Result<(), ErrorKind>)
        ensures
            r is Ok,
            *final(self) == *old(self),
    {
        Ok(())
    }

    /// Closes the device. Nothing happens.
    pub fn close(&mut self) -> (r: Result<(), ErrorKind>)
        ensures
            r is Ok,
            *final(self) == *old(self),
    {
        Ok(())
    }

    /// Enables the peripheral clocks. Nothing happens.
    pub fn perper_enable(&mut self)
        ensures
            *final(self) == *old(self),
    {
    }

    /// Decides on a question for the rate of clock `id`.
    ///
    /// On `Ok` the named access is to be made. On `Err` neither the register
    /// nor the helper may be touched.
    pub fn get_rate(&self, id: usize) -> (r: Result<ClockOp, ErrorKind>)
        ensures
            r == rate_query(self.access, id),
            id != EMMC_CLK_ID ==> r == Err::<ClockOp, ErrorKind>(
                ErrorKind::InvalidArgument(ArgumentFault::ClockId),
            ),
            r is Ok <==> id == EMMC_CLK_ID,
    {
        if id != EMMC_CLK_ID {
            return Err(ErrorKind::InvalidArgument(ArgumentFault::ClockId));
        }
        match self.access {
            ClockAccess::Register(readout) => Ok(ClockOp::ReadSelect(readout)),
            ClockAccess::Helper => Ok(ClockOp::AskHelper),
        }
    }

    /// Decides on a request to run clock `id` at `rate` Hz.
    ///
    /// On `Ok` the named access is to be made. On `Err` neither the register
    /// nor the helper may be touched. A selector that works on the register
    /// accepts the supported frequencies and no others; one that works through
    /// the helper hands every frequency on and selects no source itself.
    pub fn set_rate(&self, id: usize, rate: u64) -> (r: Result<ClockOp, ErrorKind>)
        ensures
            r == rate_update(self.access, id, rate),
            id != EMMC_CLK_ID ==> r == Err::<ClockOp, ErrorKind>(
                ErrorKind::InvalidArgument(ArgumentFault::ClockId),
            ),
            r matches Ok(ClockOp::WriteSelect(source)) ==> source_for_rate(rate) == Some(source),
            id == EMMC_CLK_ID && self.access is Register && !supported_rate(rate) ==> r == Err::<
                ClockOp,
                ErrorKind,
            >(ErrorKind::InvalidArgument(ArgumentFault::ClockRate)),
            r is Ok <==> id == EMMC_CLK_ID && (self.access is Helper || supported_rate(rate)),
    {
        if id != EMMC_CLK_ID {
            return Err(ErrorKind::InvalidArgument(ArgumentFault::ClockId));
        }
        match self.access {
            ClockAccess::Helper => Ok(ClockOp::TellHelper(rate)),
            ClockAccess::Register(_) => match select_source(rate) {
                Some(source) => Ok(ClockOp::WriteSelect(source)),
                None => Err(ErrorKind::InvalidArgument(ArgumentFault::ClockRate)),
            },
        }
    }
}

/// Turns the helper's answer into the caller's result: its value stays as it
/// is, and its failure, whatever it was, is an invalid argument.
pub fn surface_helper<T, E>(outcome: Result<T, E>) -> (r: Result<T, ErrorKind>)
    ensures
        match outcome {
            Ok(value) => r == Ok::<T, ErrorKind>(value),
            Err(_) => r == Err::<T, ErrorKind>(ErrorKind::InvalidArgument(ArgumentFault::ClockHelper)),
        },
{
    match outcome {
        Ok(value) => Ok(value),
        Err(_) => Err(ErrorKind::InvalidArgument(ArgumentFault::ClockHelper)),
    }
}

/// Every source has a select value of its own, and from the select value the
/// source can be told again.
pub proof fn lemma_sources_are_distinct(first: ClockSource, second: ClockSource)
    ensures
        first.select_bits() == second.select_bits() <==> first == second,
        first.select_bits() <= CCLK_EMMC_MASK,
        Readout::Field.reported(first.select_bits() as u32) == first.mux_index(),
        Readout::Verbatim.reported(first.select_bits() as u32) == first.select_bits(),
{
}

/// A frequency has a source exactly when it is one of the supported ones, and
/// then only one source.
pub proof fn lemma_rate_table_is_exact(rate: u64)
    ensures
        source_for_rate(rate) is Some <==> supported_rate(rate),
        source_for_rate(rate) == Some(ClockSource::XinSoc0Mux) <==> rate == 24 * MHZ,
        source_for_rate(rate) == Some(ClockSource::CplDiv50M) <==> rate == 50 * MHZ || rate == 52
            * MHZ,
        source_for_rate(rate) == Some(ClockSource::CplDiv100M) <==> rate == 100 * MHZ,
        source_for_rate(rate) == Some(ClockSource::GplDiv150M) <==> rate == 150 * MHZ,
        source_for_rate(rate) == Some(ClockSource::GplDiv200M) <==> rate == 200 * MHZ,
        source_for_rate(rate) == Some(ClockSource::Soc0Div375K) <==> rate == 375 * KHZ || rate
            == 400 * KHZ,
{
}

} // verus!
