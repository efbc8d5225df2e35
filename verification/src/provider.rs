//! The clock provider that the protocol engine asks for its bus clock.
//!
//! The engine does not know the clock tree. It asks a provider, and the
//! provider places the request with the clock device under the clock's index.

use vstd::prelude::*;

verus! {

/// The failures that a clock provider can report to the protocol engine.
#[derive(Clone, Copy, Debug, PartialEq, Eq)]
pub enum ClkError {
    /// The rate cannot be produced.
    InvalidClockRate,
    /// A register access failed.
    RegisterOperationFailed,
    /// The peripheral is unknown.
    InvalidPeripheralId,
    /// A reset did not finish in time.
    ResetTimeout,
    /// No provider was installed.
    NotInitialized,
}

/// The provider of the eMMC core clock.
#[derive(Clone, Copy, Debug, PartialEq, Eq)]
pub struct EmmcClk {
    /// The index of the eMMC core clock at the clock device.
    pub core_clk_index: usize,
}

impl EmmcClk {
    /// A provider for the clock with the given index.
    pub fn new(core_clk_index: usize) -> (clk: Self)
        ensures
            clk.core_clk_index == core_clk_index,
    {
        EmmcClk { core_clk_index }
    }

    /// The identifier under which every request of this provider is placed
    /// with the clock device.
    pub fn clock_id(&self) -> (id: usize)
        ensures
            id == self.core_clk_index,
    {
        self.core_clk_index
    }

    /// The answer to the engine's question for the current rate, given the
    /// rate that the clock device reported for `clock_id()`: that rate.
    pub fn emmc_get_clk(&self, device_rate: u64) -> (r: Result<u64, ClkError>)
        ensures
            r == Ok::<u64, ClkError>(device_rate),
    {
        Ok(device_rate)
    }

    /// The answer to the engine's request for `rate`, once the clock device
    /// has accepted that rate for `clock_id()`: always zero, whatever the rate.
    pub fn emmc_set_clk(&self, rate: u64) -> (r: Result<u64, ClkError>)
        ensures
            r == Ok::<u64, ClkError>(0),
    {
        Ok(0)
    }
}

/// Makes the provider of the eMMC core clock that is to be installed before
/// the engine's first transfer. There is one provider per platform; whoever
/// owns the engine installs it.
pub fn init_clk(core_clk_index: usize) -> (r: Result<EmmcClk, ClkError>)
    ensures
        r == Ok::<EmmcClk, ClkError>(EmmcClk { core_clk_index }),
{
    Ok(EmmcClk::new(core_clk_index))
}

} // verus!
