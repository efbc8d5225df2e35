//! The errors handed to callers, and the kinds under which the failures of
//! the protocol engine are reported.

use vstd::prelude::*;

verus! {

/// What was wrong with a rejected argument or with a malformed answer.
#[derive(Clone, Copy, Debug, PartialEq, Eq)]
pub enum ArgumentFault {
    /// The buffer holds less than one block.
    BufferTooSmall,
    /// The buffer does not start on a 32-bit word boundary.
    BufferMisaligned,
    /// The block lies beyond what the engine can address.
    BlockOutOfRange,
    /// The card answered with an invalid response.
    Response,
    /// The card is of an unsupported kind.
    Card,
    /// Tuning or voltage switching failed.
    Configuration,
    /// The engine rejected a parameter or a message.
    Parameter,
    /// The bus width could not be configured.
    BusWidth,
    /// The card reported an error of its own.
    CardError,
    /// The clock identifier is not the eMMC bus clock.
    ClockId,
    /// The frequency is none of the supported ones.
    ClockRate,
    /// The platform's clock helper failed.
    ClockHelper,
}

impl ArgumentFault {
    /// The name of the offending argument.
    pub open spec fn name_text(self) -> Seq<char> {
        match self {
            ArgumentFault::BufferTooSmall | ArgumentFault::BufferMisaligned => "buffer"@,
            ArgumentFault::BlockOutOfRange => "block_id"@,
            ArgumentFault::Response => "response"@,
            ArgumentFault::Card => "card"@,
            ArgumentFault::Configuration => "configuration"@,
            ArgumentFault::Parameter => "parameter"@,
            ArgumentFault::BusWidth => "bus_width"@,
            ArgumentFault::CardError => "card_error"@,
            ArgumentFault::ClockId => "clock_id"@,
            ArgumentFault::ClockRate => "clock_rate"@,
            ArgumentFault::ClockHelper => "clock_helper"@,
        }
    }

    /// What is wrong with the offending argument.
    pub open spec fn value_text(self) -> Seq<char> {
        match self {
            ArgumentFault::BufferTooSmall => "size too small"@,
            ArgumentFault::BufferMisaligned => "not aligned to u32"@,
            ArgumentFault::BlockOutOfRange => "out of range"@,
            ArgumentFault::Response | ArgumentFault::Parameter | ArgumentFault::BusWidth => "invalid"@,
            ArgumentFault::Card | ArgumentFault::ClockId | ArgumentFault::ClockRate => "unsupported"@,
            ArgumentFault::Configuration | ArgumentFault::ClockHelper => "failed"@,
            ArgumentFault::CardError => "card operation failed"@,
        }
    }

    /// The name of the offending argument, for the error report.
    pub fn name(&self) -> (text: &'static str)
        ensures
            text@ == self.name_text(),
    {
        match self {
            ArgumentFault::BufferTooSmall | ArgumentFault::BufferMisaligned => "buffer",
            ArgumentFault::BlockOutOfRange => "block_id",
            ArgumentFault::Response => "response",
            ArgumentFault::Card => "card",
            ArgumentFault::Configuration => "configuration",
            ArgumentFault::Parameter => "parameter",
            ArgumentFault::BusWidth => "bus_width",
            ArgumentFault::CardError => "card_error",
            ArgumentFault::ClockId => "clock_id",
            ArgumentFault::ClockRate => "clock_rate",
            ArgumentFault::ClockHelper => "clock_helper",
        }
    }

    /// What is wrong with the offending argument, for the error report.
    pub fn value(&self) -> (text: &'static str)
        ensures
            text@ == self.value_text(),
    {
        match self {
            ArgumentFault::BufferTooSmall => "size too small",
            ArgumentFault::BufferMisaligned => "not aligned to u32",
            ArgumentFault::BlockOutOfRange => "out of range",
            ArgumentFault::Response | ArgumentFault::Parameter | ArgumentFault::BusWidth => "invalid",
            ArgumentFault::Card | ArgumentFault::ClockId | ArgumentFault::ClockRate => "unsupported",
            ArgumentFault::Configuration | ArgumentFault::ClockHelper => "failed",
            ArgumentFault::CardError => "card operation failed",
        }
    }
}

/// The kinds of failure that both drivers report.
#[derive(Clone, Copy, Debug, PartialEq, Eq)]
pub enum ErrorKind {
    /// A timeout; the caller may try again.
    Again,
    /// The transfer, the bus or the command failed.
    Io,
    /// An argument was rejected, or an answer was malformed.
    InvalidArgument(ArgumentFault),
    /// No card or device is present.
    Busy,
    /// The engine ran out of buffer or descriptor memory.
    OutOfMemory,
}

/// The failures of the protocol engine.
#[derive(Clone, Copy, Debug, PartialEq, Eq)]
pub enum EngineError {
    /// Command timeout.
    Timeout,
    /// Command CRC error.
    Crc,
    /// Command end bit error.
    EndBit,
    /// Command index error.
    Index,
    /// Data timeout.
    DataTimeout,
    /// Data CRC error.
    DataCrc,
    /// Data end bit error.
    DataEndBit,
    /// Bus power error.
    BusPower,
    /// Auto CMD12 error.
    Acmd12Error,
    /// ADMA error.
    AdmaError,
    /// Invalid response received.
    InvalidResponse,
    /// No card detected.
    NoCard,
    /// Unsupported card type.
    UnsupportedCard,
    /// General I/O error.
    IoError,
    /// Command execution error.
    CommandError,
    /// Data transfer error.
    TransferError,
    /// Invalid response type for the command.
    InvalidResponseType,
    /// Current limit exceeded.
    CurrentLimit,
    /// General data error.
    DataError,
    /// The tuning procedure failed.
    TuningFailed,
    /// The voltage switch failed.
    VoltageSwitchFailed,
    /// Bad message format.
    BadMessage,
    /// Invalid argument provided.
    InvalidArgument,
    /// Buffer overflow.
    BufferOverflow,
    /// Memory allocation or access error.
    MemoryError,
    /// Bus width configuration error.
    BusWidth,
    /// An error of the card itself, with its status word and description.
    CardError(u32, &'static str),
}

/// The kind under which an engine failure is reported. Every failure has one.
pub open spec fn reported_kind(err: EngineError) -> ErrorKind {
    match err {
        EngineError::Timeout | EngineError::DataTimeout => ErrorKind::Again,
        EngineError::NoCard => ErrorKind::Busy,
        EngineError::BufferOverflow | EngineError::MemoryError => ErrorKind::OutOfMemory,
        EngineError::InvalidResponse | EngineError::InvalidResponseType => ErrorKind::InvalidArgument(
            ArgumentFault::Response,
        ),
        EngineError::UnsupportedCard => ErrorKind::InvalidArgument(ArgumentFault::Card),
        EngineError::TuningFailed | EngineError::VoltageSwitchFailed => ErrorKind::InvalidArgument(
            ArgumentFault::Configuration,
        ),
        EngineError::BadMessage | EngineError::InvalidArgument => ErrorKind::InvalidArgument(
            ArgumentFault::Parameter,
        ),
        EngineError::BusWidth => ErrorKind::InvalidArgument(ArgumentFault::BusWidth),
        EngineError::CardError(_, _) => ErrorKind::InvalidArgument(ArgumentFault::CardError),
        EngineError::Crc
        | EngineError::EndBit
        | EngineError::Index
        | EngineError::DataCrc
        | EngineError::DataEndBit
        | EngineError::DataError
        | EngineError::BusPower
        | EngineError::CurrentLimit
        | EngineError::Acmd12Error
        | EngineError::AdmaError
        | EngineError::IoError
        | EngineError::TransferError
        | EngineError::CommandError => ErrorKind::Io,
    }
}

/// Gives the kind under which a failure of the protocol engine is reported to the
/// caller.
pub fn deal_emmc_err(err: EngineError) -> (kind: ErrorKind)
    ensures
        kind == reported_kind(err),
        kind is Again <==> err is Timeout || err is DataTimeout,
        kind is Busy <==> err is NoCard,
        kind is OutOfMemory <==> err is BufferOverflow || err is MemoryError,
{
    match err {
        EngineError::Timeout | EngineError::DataTimeout => ErrorKind::Again,
        EngineError::Crc
        | EngineError::EndBit
        | EngineError::Index
        | EngineError::DataCrc
        | EngineError::DataEndBit
        | EngineError::DataError => ErrorKind::Io,
        EngineError::BusPower | EngineError::CurrentLimit => ErrorKind::Io,
        EngineError::Acmd12Error | EngineError::AdmaError => ErrorKind::Io,
        EngineError::InvalidResponse | EngineError::InvalidResponseType => {
            ErrorKind::InvalidArgument(ArgumentFault::Response)
        },
        EngineError::NoCard => ErrorKind::Busy,
        EngineError::UnsupportedCard => ErrorKind::InvalidArgument(ArgumentFault::Card),
        EngineError::IoError | EngineError::TransferError => ErrorKind::Io,
        EngineError::CommandError => ErrorKind::Io,
        EngineError::TuningFailed | EngineError::VoltageSwitchFailed => {
            ErrorKind::InvalidArgument(ArgumentFault::Configuration)
        },
        EngineError::BadMessage | EngineError::InvalidArgument => {
            ErrorKind::InvalidArgument(ArgumentFault::Parameter)
        },
        EngineError::BufferOverflow | EngineError::MemoryError => ErrorKind::OutOfMemory,
        EngineError::BusWidth => ErrorKind::InvalidArgument(ArgumentFault::BusWidth),
        EngineError::CardError(_, _) => ErrorKind::InvalidArgument(ArgumentFault::CardError),
    }
}

} // verus!
