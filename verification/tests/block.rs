use rk3568_driver::block::{BlockRequest, BufferRegion, Direction, EmmcDriver, BLOCK_SIZE, OFFSET, WORD_SIZE};
use rk3568_driver::error::{ArgumentFault, EngineError, ErrorKind};
use rk3568_driver::provider::EmmcClk;
use std::collections::HashMap;

/// A protocol engine that keeps blocks in memory and notes every transfer
/// asked of it.
struct FakeEngine {
    blocks: HashMap<u32, Vec<u8>>,
    seen: Vec<(Direction, u32, u16)>,
    failure: Option<EngineError>,
}

impl FakeEngine {
    fn new() -> Self {
        FakeEngine { blocks: HashMap::new(), seen: Vec::new(), failure: None }
    }

    fn failing(failure: EngineError) -> Self {
        FakeEngine { blocks: HashMap::new(), seen: Vec::new(), failure: Some(failure) }
    }

    fn read_blocks(&mut self, block_id: u32, blocks: u16, buffer: &mut [u8]) -> Result<(), EngineError> {
        self.seen.push((Direction::Read, block_id, blocks));
        if let Some(failure) = self.failure {
            return Err(failure);
        }
        match self.blocks.get(&block_id) {
            Some(stored) => buffer[..BLOCK_SIZE].copy_from_slice(stored),
            None => buffer[..BLOCK_SIZE].fill(0),
        }
        Ok(())
    }

    fn write_blocks(&mut self, block_id: u32, blocks: u16, buffer: &[u8]) -> Result<(), EngineError> {
        self.seen.push((Direction::Write, block_id, blocks));
        if let Some(failure) = self.failure {
            return Err(failure);
        }
        self.blocks.insert(block_id, buffer[..BLOCK_SIZE].to_vec());
        Ok(())
    }
}

/// Reads one block the way an owner of the engine does: decide, transfer,
/// complete. The buffer is taken to lie at `addr`.
fn read_through(
    driver: &EmmcDriver,
    engine: &mut FakeEngine,
    block_id: u64,
    addr: usize,
    buffer: &mut [u8],
) -> Result<(), ErrorKind> {
    let request = driver.read_block(block_id, BufferRegion { addr, len: buffer.len() })?;
    assert_eq!(request.direction, Direction::Read);
    let outcome = engine.read_blocks(request.physical_block, request.block_count, buffer);
    driver.complete(outcome)
}

/// Writes one block the way an owner of the engine does.
fn write_through(
    driver: &EmmcDriver,
    engine: &mut FakeEngine,
    block_id: u64,
    addr: usize,
    buffer: &[u8],
) -> Result<(), ErrorKind> {
    let request = driver.write_block(block_id, BufferRegion { addr, len: buffer.len() })?;
    assert_eq!(request.direction, Direction::Write);
    let outcome = engine.write_blocks(request.physical_block, request.block_count, buffer);
    driver.complete(outcome)
}

const ALIGNED: usize = 0x4000_1000;

#[test]
fn constants_have_their_values() {
    assert_eq!(OFFSET, 0x7_A000);
    assert_eq!(OFFSET, 499_712);
    assert_eq!(BLOCK_SIZE, 512);
    assert_eq!(WORD_SIZE, 4);
}

#[test]
fn read_reaches_the_block_behind_the_offset() {
    let driver = EmmcDriver::new(0xfe31_0000);
    for block_id in [0u64, 1, 7, 0x1234, 0xFFF8_5FFF] {
        let mut engine = FakeEngine::new();
        let mut buffer = vec![0u8; BLOCK_SIZE];
        assert_eq!(read_through(&driver, &mut engine, block_id, ALIGNED, &mut buffer), Ok(()));
        assert_eq!(engine.seen, vec![(Direction::Read, (block_id + 0x7_A000) as u32, 1)]);
    }
}

#[test]
fn write_reaches_the_block_behind_the_offset() {
    let driver = EmmcDriver::new(0xfe31_0000);
    for block_id in [0u64, 1, 7, 0x1234, 0xFFF8_5FFF] {
        let mut engine = FakeEngine::new();
        let buffer = vec![0xA5u8; BLOCK_SIZE];
        assert_eq!(write_through(&driver, &mut engine, block_id, ALIGNED, &buffer), Ok(()));
        assert_eq!(engine.seen, vec![(Direction::Write, (block_id + 0x7_A000) as u32, 1)]);
    }
}

#[test]
fn request_for_block_zero_is_exact() {
    let driver = EmmcDriver::new(0xfe31_0000);
    let region = BufferRegion { addr: ALIGNED, len: 512 };
    assert_eq!(
        driver.read_block(0, region),
        Ok(BlockRequest { direction: Direction::Read, physical_block: 0x7_A000, block_count: 1 })
    );
    assert_eq!(
        driver.write_block(0, region),
        Ok(BlockRequest { direction: Direction::Write, physical_block: 0x7_A000, block_count: 1 })
    );
    assert_eq!(
        driver.read_block(3, region),
        Ok(BlockRequest { direction: Direction::Read, physical_block: 499_715, block_count: 1 })
    );
}

#[test]
fn short_buffer_is_refused_before_the_engine() {
    let driver = EmmcDriver::new(0xfe31_0000);
    let too_small: Result<(), ErrorKind> = Err(ErrorKind::InvalidArgument(ArgumentFault::BufferTooSmall));
    for len in [0usize, 1, 4, 256, 508, 511] {
        let mut engine = FakeEngine::new();
        let mut buffer = vec![0x11u8; len];
        assert_eq!(read_through(&driver, &mut engine, 5, ALIGNED, &mut buffer), too_small);
        assert_eq!(write_through(&driver, &mut engine, 5, ALIGNED, &buffer), too_small);
        assert!(engine.seen.is_empty());
        assert!(engine.blocks.is_empty());
        assert!(buffer.iter().all(|byte| *byte == 0x11));
    }
}

#[test]
fn misaligned_buffer_is_refused_before_the_engine() {
    let driver = EmmcDriver::new(0xfe31_0000);
    let misaligned: Result<(), ErrorKind> = Err(ErrorKind::InvalidArgument(ArgumentFault::BufferMisaligned));
    for skew in [1usize, 2, 3, 5, 0x1003] {
        let mut engine = FakeEngine::new();
        let mut buffer = vec![0x22u8; BLOCK_SIZE];
        assert_eq!(read_through(&driver, &mut engine, 5, ALIGNED + skew, &mut buffer), misaligned);
        assert_eq!(write_through(&driver, &mut engine, 5, ALIGNED + skew, &buffer), misaligned);
        assert!(engine.seen.is_empty());
        assert!(engine.blocks.is_empty());
        assert!(buffer.iter().all(|byte| *byte == 0x22));
    }
}

#[test]
fn size_is_judged_before_alignment() {
    let driver = EmmcDriver::new(0);
    let region = BufferRegion { addr: 0x1001, len: 511 };
    assert_eq!(
        driver.read_block(0, region),
        Err(ErrorKind::InvalidArgument(ArgumentFault::BufferTooSmall))
    );
    assert_eq!(region.check(), Err(ErrorKind::InvalidArgument(ArgumentFault::BufferTooSmall)));
    assert_eq!(
        BufferRegion { addr: 0x1001, len: 512 }.check(),
        Err(ErrorKind::InvalidArgument(ArgumentFault::BufferMisaligned))
    );
    assert_eq!(BufferRegion { addr: 0x1000, len: 512 }.check(), Ok(()));
    assert_eq!(BufferRegion { addr: 0, len: 512 }.check(), Ok(()));
}

#[test]
fn longer_aligned_buffer_is_accepted() {
    let driver = EmmcDriver::new(0);
    for len in [512usize, 513, 514, 1024, 4096] {
        let request = driver.read_block(9, BufferRegion { addr: 0x2000, len });
        assert_eq!(
            request,
            Ok(BlockRequest { direction: Direction::Read, physical_block: 0x7_A009, block_count: 1 })
        );
    }
}

#[test]
fn last_addressable_block_is_served() {
    let driver = EmmcDriver::new(0);
    let region = BufferRegion { addr: 0x2000, len: 512 };
    let last = 0xFFFF_FFFFu64 - 0x7_A000;
    assert_eq!(
        driver.write_block(last, region),
        Ok(BlockRequest { direction: Direction::Write, physical_block: 0xFFFF_FFFF, block_count: 1 })
    );
}

#[test]
fn block_beyond_the_engine_is_refused() {
    let driver = EmmcDriver::new(0);
    let region = BufferRegion { addr: 0x2000, len: 512 };
    let out_of_range = Err(ErrorKind::InvalidArgument(ArgumentFault::BlockOutOfRange));
    let first_beyond = 0x1_0000_0000u64 - 0x7_A000;
    for block_id in [first_beyond, 0x1_0000_0000, u64::MAX - 0x7_A000, u64::MAX - 0x7_9FFF, u64::MAX] {
        assert_eq!(driver.read_block(block_id, region), out_of_range);
        assert_eq!(driver.write_block(block_id, region), out_of_range);
    }
    let mut engine = FakeEngine::new();
    let mut buffer = vec![0u8; BLOCK_SIZE];
    assert_eq!(
        read_through(&driver, &mut engine, first_beyond, ALIGNED, &mut buffer),
        Err(ErrorKind::InvalidArgument(ArgumentFault::BlockOutOfRange))
    );
    assert!(engine.seen.is_empty());
}

#[test]
fn buffer_faults_come_before_the_block_range() {
    let driver = EmmcDriver::new(0);
    assert_eq!(
        driver.read_block(u64::MAX, BufferRegion { addr: 0x2000, len: 100 }),
        Err(ErrorKind::InvalidArgument(ArgumentFault::BufferTooSmall))
    );
    assert_eq!(
        driver.write_block(u64::MAX, BufferRegion { addr: 0x2002, len: 512 }),
        Err(ErrorKind::InvalidArgument(ArgumentFault::BufferMisaligned))
    );
}

#[test]
fn written_block_reads_back_the_same() {
    let driver = EmmcDriver::new(0xfe31_0000);
    let mut engine = FakeEngine::new();
    let mut filled = vec![0u8; BLOCK_SIZE];
    for (i, byte) in filled.iter_mut().enumerate() {
        *byte = (i * 7 + 3) as u8;
    }
    assert_eq!(write_through(&driver, &mut engine, 42, ALIGNED, &filled), Ok(()));
    let mut back = vec![0u8; BLOCK_SIZE];
    assert_eq!(read_through(&driver, &mut engine, 42, ALIGNED, &mut back), Ok(()));
    assert_eq!(back, filled);
    assert_eq!(
        engine.seen,
        vec![(Direction::Write, 0x7_A02A, 1), (Direction::Read, 0x7_A02A, 1)]
    );
    assert_eq!(engine.blocks.len(), 1);
    assert_eq!(engine.blocks.get(&0x7_A02A), Some(&filled));
}

#[test]
fn neighbouring_blocks_are_kept_apart() {
    let driver = EmmcDriver::new(0xfe31_0000);
    let mut engine = FakeEngine::new();
    let ones = vec![1u8; BLOCK_SIZE];
    let twos = vec![2u8; BLOCK_SIZE];
    assert_eq!(write_through(&driver, &mut engine, 10, ALIGNED, &ones), Ok(()));
    assert_eq!(write_through(&driver, &mut engine, 11, ALIGNED, &twos), Ok(()));
    let mut back = vec![0u8; BLOCK_SIZE];
    assert_eq!(read_through(&driver, &mut engine, 10, ALIGNED, &mut back), Ok(()));
    assert_eq!(back, ones);
    assert_eq!(read_through(&driver, &mut engine, 11, ALIGNED, &mut back), Ok(()));
    assert_eq!(back, twos);
    assert_eq!(read_through(&driver, &mut engine, 12, ALIGNED, &mut back), Ok(()));
    assert_eq!(back, vec![0u8; BLOCK_SIZE]);
}

#[test]
fn engine_failure_reaches_the_caller_under_its_kind() {
    let driver = EmmcDriver::new(0xfe31_0000);
    let cases = [
        (EngineError::DataTimeout, ErrorKind::Again),
        (EngineError::DataCrc, ErrorKind::Io),
        (EngineError::NoCard, ErrorKind::Busy),
        (EngineError::MemoryError, ErrorKind::OutOfMemory),
        (EngineError::BadMessage, ErrorKind::InvalidArgument(ArgumentFault::Parameter)),
    ];
    for (failure, kind) in cases {
        let mut engine = FakeEngine::failing(failure);
        let mut buffer = vec![0u8; BLOCK_SIZE];
        assert_eq!(read_through(&driver, &mut engine, 1, ALIGNED, &mut buffer), Err(kind));
        assert_eq!(write_through(&driver, &mut engine, 1, ALIGNED, &buffer), Err(kind));
        assert_eq!(engine.seen, vec![(Direction::Read, 0x7_A001, 1), (Direction::Write, 0x7_A001, 1)]);
    }
}

#[test]
fn complete_keeps_success_and_classes_failure() {
    let driver = EmmcDriver::new(0);
    assert_eq!(driver.complete(Ok(())), Ok(()));
    assert_eq!(driver.complete(Err(EngineError::Timeout)), Err(ErrorKind::Again));
    assert_eq!(driver.complete(Err(EngineError::IoError)), Err(ErrorKind::Io));
    assert_eq!(
        driver.complete(Err(EngineError::CardError(0x8000_0000, "out of range"))),
        Err(ErrorKind::InvalidArgument(ArgumentFault::CardError))
    );
}

#[test]
fn lifecycle_hooks_do_nothing() {
    let mut driver = EmmcDriver::with_clock(0xfe31_0000, EmmcClk::new(3));
    let before = driver;
    assert_eq!(driver.open(), Ok(()));
    assert_eq!(driver.flush(), Ok(()));
    assert_eq!(driver.close(), Ok(()));
    assert_eq!(driver, before);
}

#[test]
fn constructors_keep_what_they_are_given() {
    let plain = EmmcDriver::new(0xfe31_0000);
    assert_eq!(plain.base_addr, 0xfe31_0000);
    assert_eq!(plain.clock, None);
    let clocked = EmmcDriver::with_clock(0xfe31_0000, EmmcClk::new(0x7c));
    assert_eq!(clocked.base_addr, 0xfe31_0000);
    assert_eq!(clocked.clock, Some(EmmcClk { core_clk_index: 0x7c }));
}
