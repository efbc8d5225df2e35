//! The eMMC block adapter.
//!
//! Callers address a logical block space that starts behind a reserved region
//! of the device. The adapter checks the caller's buffer, moves the block
//! number behind the reserved region, and names the single-block transfer that
//! the protocol engine is to perform. When the engine has answered, the adapter
//! turns the answer into the caller's result. It never retries.

use vstd::prelude::*;
use crate::error::{deal_emmc_err, reported_kind, ArgumentFault, EngineError, ErrorKind};
use crate::provider::EmmcClk;

verus! {

/// The number of leading physical blocks that are reserved. Logical block 0 is
/// physical block `OFFSET`.
pub const OFFSET: u64 = 0x7_A000;

/// The size of one block in bytes.
pub const BLOCK_SIZE: usize = 512;

/// The alignment in bytes that the engine's 32-bit word transfers need.
pub const WORD_SIZE: usize = 4;

/// Where a caller's buffer lies in memory, and how long it is.
#[derive(Clone, Copy, Debug, PartialEq, Eq)]
pub struct BufferRegion {
    /// The address of the first byte.
    pub addr: usize,
    /// The length in bytes.
    pub len: usize,
}

impl BufferRegion {
    /// The buffer has room for one block.
    pub open spec fn holds_block(self) -> bool {
        self.len >= BLOCK_SIZE
    }

    /// The buffer starts on a 32-bit word boundary.
    pub open spec fn word_aligned(self) -> bool {
        self.addr % WORD_SIZE == 0
    }

    /// What is wrong with the buffer, if anything. Its size is judged first.
    pub open spec fn fault(self) -> Option<ArgumentFault> {
        if !self.holds_block() {
            Some(ArgumentFault::BufferTooSmall)
        } else if !self.word_aligned() {
            Some(ArgumentFault::BufferMisaligned)
        } else {
            None
        }
    }

    /// Checks that the buffer can take part in a transfer.
    pub fn check(&self) -> (r: Result<(), ErrorKind>)
        ensures
            r == match self.fault() {
                Some(fault) => Err::<(), ErrorKind>(ErrorKind::InvalidArgument(fault)),
                None => Ok::<(), ErrorKind>(()),
            },
    {
        if self.len < BLOCK_SIZE {
            Err(ErrorKind::InvalidArgument(ArgumentFault::BufferTooSmall))
        } else if self.addr % WORD_SIZE != 0 {
            Err(ErrorKind::InvalidArgument(ArgumentFault::BufferMisaligned))
        } else {
            Ok(())
        }
    }
}

/// The direction of a transfer, seen from the caller's buffer.
#[derive(Clone, Copy, Debug, PartialEq, Eq)]
pub enum Direction {
    /// From the device into the buffer.
    Read,
    /// From the buffer to the device.
    Write,
}

/// One transfer for the protocol engine to perform on the caller's buffer.
#[derive(Clone, Copy, Debug, PartialEq, Eq)]
pub struct BlockRequest {
    /// Whether the engine reads or writes.
    pub direction: Direction,
    /// The first physical block of the transfer.
    pub physical_block: u32,
    /// The number of blocks to transfer.
    pub block_count: u16,
}

/// The physical block that holds a logical block.
pub open spec fn physical_block(logical: u64) -> int {
    logical + OFFSET
}

/// The engine addresses blocks with 32 bits: a logical block can be reached
/// when its physical block fits in them.
pub open spec fn addressable(logical: u64) -> bool {
    physical_block(logical) <= u32::MAX
}

/// The transfer that a read or write of one logical block asks of the engine,
/// or the reason for which the engine is left alone.
pub open spec fn block_request(direction: Direction, logical: u64, region: BufferRegion) -> Result<
    BlockRequest,
    ErrorKind,
> {
    match region.fault() {
        Some(fault) => Err(ErrorKind::InvalidArgument(fault)),
        None => if addressable(logical) {
            Ok(
                BlockRequest {
                    direction,
                    physical_block: physical_block(logical) as u32,
                    block_count: 1,
                },
            )
        } else {
            Err(ErrorKind::InvalidArgument(ArgumentFault::BlockOutOfRange))
        },
    }
}

/// The caller's result for what the engine answered to a transfer.
pub open spec fn completion(outcome: Result<(), EngineError>) -> Result<(), ErrorKind> {
    match outcome {
        Ok(_) => Ok(()),
        Err(err) => Err(reported_kind(err)),
    }
}

/// The adapter for the eMMC controller of the RK3568.
#[derive(Clone, Copy, Debug, PartialEq, Eq)]
pub struct EmmcDriver {
    /// The base address of the controller's registers. It must be the address
    /// of the controller's memory-mapped register block, and nothing else may
    /// use that block while the adapter lives.
    pub base_addr: usize,
    /// The provider of the bus clock, where the adapter was given one.
    pub clock: Option<EmmcClk>,
}

impl EmmcDriver {
    /// An adapter for the controller whose registers start at `base_addr`.
    pub fn new(base_addr: usize) -> (driver: Self)
        ensures
            driver == (EmmcDriver { base_addr, clock: None }),
    {
        EmmcDriver { base_addr, clock: None }
    }

    /// An adapter for the controller whose registers start at `base_addr`,
    /// with the provider of its bus clock.
    pub fn with_clock(base_addr: usize, clock: EmmcClk) -> (driver: Self)
        ensures
            driver == (EmmcDriver { base_addr, clock: Some(clock) }),
    {
        EmmcDriver { base_addr, clock: Some(clock) }
    }

    /// Opens the device. The engine is ready when the adapter is made, so
    /// nothing happens.
    pub fn open(&mut self) -> (r: Result<(), ErrorKind>)
        ensures
            r is Ok,
            *final(self) == *old(self),
    {
        Ok(())
    }

    /// Closes the device. Nothing happens.
    pub fn close(&mut self) -> (r: Result<(), ErrorKind>)
        ensures
            r is Ok,
            *final(self) == *old(self),
    {
        Ok(())
    }

    /// Flushes cached writes. The engine writes through, so nothing happens.
    pub fn flush(&mut self) -> (r: Result<(), ErrorKind>)
        ensures
            r is Ok,
            *final(self) == *old(self),
    {
        Ok(())
    }

    /// Decides on a transfer of the logical block `block_id`. Both reads and
    /// writes go through here.
    fn request(direction: Direction, block_id: u64, region: BufferRegion) -> (r: Result<
        BlockRequest,
        ErrorKind,
    >)
        ensures
            r == block_request(direction, block_id, region),
    {
        match region.check() {
            Err(kind) => Err(kind),
            Ok(()) => match block_id.checked_add(OFFSET) {
                Some(physical) if physical <= u32::MAX as u64 => Ok(
                    BlockRequest { direction, physical_block: physical as u32, block_count: 1 },
                ),
                _ => Err(ErrorKind::InvalidArgument(ArgumentFault::BlockOutOfRange)),
            },
        }
    }

    /// Decides on reading the logical block `block_id` into the buffer at
    /// `region`.
    ///
    /// On `Ok` the engine is to read the one block named in the request into
    /// the buffer. On `Err` the engine and the buffer must be left alone.
    pub fn read_block(&self, block_id: u64, region: BufferRegion) -> (r: Result<
        BlockRequest,
        ErrorKind,
    >)
        ensures
            r == block_request(Direction::Read, block_id, region),
            region.len < BLOCK_SIZE ==> r == Err::<BlockRequest, ErrorKind>(
                ErrorKind::InvalidArgument(ArgumentFault::BufferTooSmall),
            ),
            region.addr % WORD_SIZE != 0 ==> r matches Err(ErrorKind::InvalidArgument(_)),
            r matches Ok(req) ==> req.physical_block == block_id + OFFSET && req.block_count == 1
                && req.direction == Direction::Read,
            r is Ok <==> region.len >= BLOCK_SIZE && region.addr % WORD_SIZE == 0 && block_id
                + OFFSET <= u32::MAX,
    {
        Self::request(Direction::Read, block_id, region)
    }

    /// Decides on writing the buffer at `region` to the logical block
    /// `block_id`.
    ///
    /// On `Ok` the engine is to write the one block named in the request from
    /// the buffer. On `Err` the engine must be left alone.
    pub fn write_block(&self, block_id: u64, region: BufferRegion) -> (r: Result<
        BlockRequest,
        ErrorKind,
    >)
        ensures
            r == block_request(Direction::Write, block_id, region),
            region.len < BLOCK_SIZE ==> r == Err::<BlockRequest, ErrorKind>(
                ErrorKind::InvalidArgument(ArgumentFault::BufferTooSmall),
            ),
            region.addr % WORD_SIZE != 0 ==> r matches Err(ErrorKind::InvalidArgument(_)),
            r matches Ok(req) ==> req.physical_block == block_id + OFFSET && req.block_count == 1
                && req.direction == Direction::Write,
            r is Ok <==> region.len >= BLOCK_SIZE && region.addr % WORD_SIZE == 0 && block_id
                + OFFSET <= u32::MAX,
    {
        Self::request(Direction::Write, block_id, region)
    }

    /// Turns the engine's answer to a transfer into the caller's result:
    /// success stays success, and every failure is reported under its kind.
    pub fn complete(&self, outcome: Result<(), EngineError>) -> (r: Result<(), ErrorKind>)
        ensures
            r == completion(outcome),
            r is Ok <==> outcome is Ok,
    {
        match outcome {
            Ok(()) => Ok(()),
            Err(err) => Err(deal_emmc_err(err)),
        }
    }
}

/// No request reaches into the reserved region, and every request is for the
/// one block behind the reserved region that belongs to the logical block.
pub proof fn lemma_request_stays_behind_reserved_region(
    direction: Direction,
    logical: u64,
    region: BufferRegion,
)
    ensures
        block_request(direction, logical, region) matches Ok(req) ==> req.physical_block >= OFFSET
            && req.physical_block - OFFSET == logical && req.block_count == 1,
{
}

/// On an engine that keeps what is written to it, a block that was written
/// reads back the same: the read of a logical block asks for the physical
/// block that the write of it filled. `store` is what the engine held before
/// the write, by physical block.
pub proof fn lemma_written_block_reads_back(
    store: Map<u32, Seq<u8>>,
    logical: u64,
    source: BufferRegion,
    target: BufferRegion,
    data: Seq<u8>,
)
    ensures
        block_request(Direction::Write, logical, source) matches Ok(written) ==> (block_request(
            Direction::Read,
            logical,
            target,
        ) matches Ok(wanted) ==> wanted.physical_block == written.physical_block
            && wanted.block_count == written.block_count && store.insert(
            written.physical_block,
            data,
        )[wanted.physical_block] == data),
{
}

/// On an engine that keeps what is written to it, a write to one logical block
/// leaves what every other logical block reads as it was.
pub proof fn lemma_write_leaves_other_blocks(
    store: Map<u32, Seq<u8>>,
    logical: u64,
    other: u64,
    source: BufferRegion,
    target: BufferRegion,
    data: Seq<u8>,
)
    requires
        logical != other,
    ensures
        block_request(Direction::Write, logical, source) matches Ok(written) ==> (block_request(
            Direction::Read,
            other,
            target,
        ) matches Ok(wanted) ==> store.insert(written.physical_block, data).contains_key(
            wanted.physical_block,
        ) == store.contains_key(wanted.physical_block) && store.insert(
            written.physical_block,
            data,
        )[wanted.physical_block] == store[wanted.physical_block]),
{
}

/// Two logical blocks never share a physical block.
pub proof fn lemma_blocks_do_not_overlap(
    first: u64,
    second: u64,
    direction_first: Direction,
    direction_second: Direction,
    region_first: BufferRegion,
    region_second: BufferRegion,
)
    requires
        first != second,
    ensures
        block_request(direction_first, first, region_first) matches Ok(a) ==> (block_request(
            direction_second,
            second,
            region_second,
        ) matches Ok(b) ==> a.physical_block != b.physical_block),
{
}

} // verus!
