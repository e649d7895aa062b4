//! Flash storage.

use vstd::prelude::*;

use crate::blocking::{
    subscribe_allow_ro_and_wait, subscribe_allow_rw_and_wait, subscribe_and_wait,
};
use crate::error::ErrorCode;
use crate::kernel;
use crate::kernel::{BlockingRequest, Command, Expect, Op, Region, Reply, Share, UpcallArgs};
use crate::machine;
use crate::machine::{Machine, Progress};

verus! {

/// Read done callback.
pub const SUBSCRIBE_READ_DONE: u32 = 0;

/// Write done callback.
pub const SUBSCRIBE_WRITE_DONE: u32 = 1;

/// Erase done callback.
pub const SUBSCRIBE_ERASE_DONE: u32 = 2;

/// Read-only buffer with the bytes to write to the flash storage.
pub const RO_ALLOW_WRITE: u32 = 0;

/// Read-write buffer to read from the flash storage into.
pub const RW_ALLOW_READ: u32 = 0;

/// Succeeds if the driver is included on the platform.
pub const CMD_EXISTS: u32 = 0;

/// Returns the flash capacity available to userspace.
pub const CMD_GET_CAPACITY: u32 = 1;

/// Starts a read.
pub const CMD_READ: u32 = 2;

/// Starts a write.
pub const CMD_WRITE: u32 = 3;

/// Starts an erase.
pub const CMD_ERASE: u32 = 4;

/// Returns the chunk size for read and write operations.
pub const CMD_GET_CHUNK_SIZE: u32 = 5;

/// The capacity of a flash device in bytes.
#[derive(Copy, Clone, Debug, PartialEq, Eq, Structural)]
pub struct FlashCapacity(pub u32);

/// A flash device.
#[derive(Copy, Clone, Debug, PartialEq, Eq, Structural)]
pub struct SpiFlash {
    pub driver_num: u32,
}

/// Which way a transfer goes.
#[derive(Copy, Clone, Debug, PartialEq, Eq, Structural)]
pub enum Direction {
    /// From the flash storage into the caller's buffer.
    Read,
    /// From the caller's buffer to the flash storage.
    Write,
}

/// The step that is due in a [`FlashTransfer`].
#[derive(Copy, Clone, Debug, PartialEq, Eq, Structural)]
pub enum FlashPhase {
    /// Ask for the chunk size to cut the transfer by.
    QuerySize,
    /// Ask for the chunk size that the next chunk must keep to.
    CheckSize,
    /// Move the next chunk.
    Transfer,
    /// Take the buffer of the chunk back.
    Unallow,
}

/// A read or a write under way, one chunk at a time.
#[derive(Copy, Clone, Debug, PartialEq, Eq, Structural)]
pub struct FlashTransfer {
    pub driver_num: u32,
    pub direction: Direction,
    /// Where the transfer starts in the flash storage.
    pub address: usize,
    /// How many bytes are to be moved.
    pub len: usize,
    /// How many bytes have been moved.
    pub offset: usize,
    /// The size of every chunk but the last.
    pub chunk_size: usize,
    pub phase: FlashPhase,
}

/// The question for the chunk size.
pub open spec fn chunk_size_query(driver_num: u32) -> Op {
    kernel::word_command(driver_num, CMD_GET_CHUNK_SIZE, 0, 0)
}

/// The request that moves `len` bytes between the flash storage at `address`
/// and the caller's buffer from `start` on.
pub open spec fn chunk_request(
    driver_num: u32,
    direction: Direction,
    address: usize,
    start: usize,
    len: usize,
) -> BlockingRequest {
    let region = Region { start, len };
    match direction {
        Direction::Read => BlockingRequest {
            driver_num,
            subscribe_num: SUBSCRIBE_READ_DONE,
            ro: None,
            rw: Some(Share { buffer_num: RW_ALLOW_READ, region }),
            cmd: CMD_READ,
            arg1: address as u32,
            arg2: len as u32,
        },
        Direction::Write => BlockingRequest {
            driver_num,
            subscribe_num: SUBSCRIBE_WRITE_DONE,
            ro: Some(Share { buffer_num: RO_ALLOW_WRITE, region }),
            rw: None,
            cmd: CMD_WRITE,
            arg1: address as u32,
            arg2: len as u32,
        },
    }
}

impl SpiFlash {
    /// The flash device behind a driver number.
    pub fn new(driver_num: u32) -> (flash: SpiFlash)
        ensures
            flash.driver_num == driver_num,
    {
        SpiFlash { driver_num }
    }

    /// Asks whether the device exists.
    pub fn driver_exists(&self) -> (op: Op)
        ensures
            op == kernel::unit_command(self.driver_num, CMD_EXISTS, 0, 0),
    {
        Op::Command {
            command: Command {
                driver_num: self.driver_num,
                command_num: CMD_EXISTS,
                arg0: 0,
                arg1: 0,
            },
            expect: Expect::Unit,
        }
    }

    /// Asks for the capacity that is available to userspace.
    pub fn get_capacity(&self) -> (op: Op)
        ensures
            op == kernel::word_command(self.driver_num, CMD_GET_CAPACITY, 0, 0),
    {
        Op::Command {
            command: Command {
                driver_num: self.driver_num,
                command_num: CMD_GET_CAPACITY,
                arg0: 0,
                arg1: 0,
            },
            expect: Expect::Word,
        }
    }

    /// The capacity in the reply to `get_capacity`.
    pub fn capacity_reply(reply: Reply) -> (r: Result<FlashCapacity, ErrorCode>)
        ensures
            r == match reply {
                Ok(args) => Ok::<FlashCapacity, ErrorCode>(FlashCapacity(args.0)),
                Err(e) => Err(e),
            },
    {
        match reply {
            Ok(args) => Ok(FlashCapacity(args.0)),
            Err(e) => Err(e),
        }
    }

    /// Asks for the chunk size of reads and writes. The reply is read by
    /// [`kernel::size_reply`].
    pub fn get_chunk_size(&self) -> (op: Op)
        ensures
            op == chunk_size_query(self.driver_num),
    {
        Op::Command {
            command: Command {
                driver_num: self.driver_num,
                command_num: CMD_GET_CHUNK_SIZE,
                arg0: 0,
                arg1: 0,
            },
            expect: Expect::Word,
        }
    }

    /// Reads `len` bytes at `address` into a buffer of `buf_len` bytes. A
    /// buffer that is too small is refused before anything is asked.
    pub fn read(&self, address: usize, len: usize, buf_len: usize) -> (p: Progress<
        FlashTransfer,
        Result<(), ErrorCode>,
    >)
        ensures
            p == FlashTransfer::at_start(self.driver_num, Direction::Read, address, len, buf_len),
            machine::progress_wf(p),
    {
        FlashTransfer::begin(self.driver_num, Direction::Read, address, len, buf_len)
    }

    /// Writes the first `len` bytes of a buffer of `buf_len` bytes at
    /// `address`. A buffer that is too small is refused before anything is
    /// asked.
    pub fn write(&self, address: usize, len: usize, buf_len: usize) -> (p: Progress<
        FlashTransfer,
        Result<(), ErrorCode>,
    >)
        ensures
            p == FlashTransfer::at_start(self.driver_num, Direction::Write, address, len, buf_len),
            machine::progress_wf(p),
    {
        FlashTransfer::begin(self.driver_num, Direction::Write, address, len, buf_len)
    }

    /// Erases `len` bytes at `address`. The reply is read by
    /// [`kernel::unit_reply`].
    pub fn erase(&self, address: usize, len: usize) -> (op: Op)
        ensures
            op == Op::Blocking(
                BlockingRequest {
                    driver_num: self.driver_num,
                    subscribe_num: SUBSCRIBE_ERASE_DONE,
                    ro: None,
                    rw: None,
                    cmd: CMD_ERASE,
                    arg1: address as u32,
                    arg2: len as u32,
                },
            ),
    {
        Op::Blocking(
            subscribe_and_wait(
                self.driver_num,
                SUBSCRIBE_ERASE_DONE,
                CMD_ERASE,
                address as u32,
                len as u32,
            ),
        )
    }
}

impl FlashTransfer {
    /// Where a transfer stands before anything is asked.
    pub open spec fn at_start(
        driver_num: u32,
        direction: Direction,
        address: usize,
        len: usize,
        buf_len: usize,
    ) -> Progress<FlashTransfer, Result<(), ErrorCode>> {
        if buf_len < len {
            Progress::Done(Err(ErrorCode::NoMem))
        } else {
            Progress::Pending(
                FlashTransfer {
                    driver_num,
                    direction,
                    address,
                    len,
                    offset: 0,
                    chunk_size: 0,
                    phase: FlashPhase::QuerySize,
                },
            )
        }
    }

    fn begin(
        driver_num: u32,
        direction: Direction,
        address: usize,
        len: usize,
        buf_len: usize,
    ) -> (p: Progress<FlashTransfer, Result<(), ErrorCode>>)
        ensures
            p == FlashTransfer::at_start(driver_num, direction, address, len, buf_len),
            machine::progress_wf(p),
    {
        if buf_len < len {
            return Progress::Done(Err(ErrorCode::NoMem));
        }
        Progress::Pending(
            FlashTransfer {
                driver_num,
                direction,
                address,
                len,
                offset: 0,
                chunk_size: 0,
                phase: FlashPhase::QuerySize,
            },
        )
    }

    /// The number of bytes of the chunk that is due.
    pub open spec fn chunk_len(self) -> usize {
        let remaining = (self.len - self.offset) as usize;
        if remaining < self.chunk_size {
            remaining
        } else {
            self.chunk_size
        }
    }

    /// Whether the transfer has everything moved after `moved` bytes.
    pub open spec fn continue_at(self, moved: usize) -> Progress<
        FlashTransfer,
        Result<(), ErrorCode>,
    > {
        if moved == self.len {
            Progress::Done(Ok(()))
        } else {
            Progress::Pending(
                FlashTransfer { offset: moved, phase: FlashPhase::CheckSize, ..self },
            )
        }
    }

    fn exec_chunk_len(&self) -> (n: usize)
        requires
            self.wf(),
        ensures
            n == self.chunk_len(),
            self.offset + n <= self.len,
    {
        let remaining: usize = self.len - self.offset;
        if remaining < self.chunk_size {
            remaining
        } else {
            self.chunk_size
        }
    }

    fn read_chunk(&self) -> (op: Op)
        requires
            self.wf(),
            self.phase == FlashPhase::Transfer,
        ensures
            op == Op::Blocking(
                chunk_request(
                    self.driver_num,
                    Direction::Read,
                    (self.address + self.offset) as usize,
                    self.offset,
                    self.chunk_len(),
                ),
            ),
    {
        let n: usize = self.exec_chunk_len();
        Op::Blocking(
            subscribe_allow_rw_and_wait(
                self.driver_num,
                SUBSCRIBE_READ_DONE,
                RW_ALLOW_READ,
                Region { start: self.offset, len: n },
                CMD_READ,
                (self.address + self.offset) as u32,
                n as u32,
            ),
        )
    }

    fn write_chunk(&self) -> (op: Op)
        requires
            self.wf(),
            self.phase == FlashPhase::Transfer,
        ensures
            op == Op::Blocking(
                chunk_request(
                    self.driver_num,
                    Direction::Write,
                    (self.address + self.offset) as usize,
                    self.offset,
                    self.chunk_len(),
                ),
            ),
    {
        let n: usize = self.exec_chunk_len();
        Op::Blocking(
            subscribe_allow_ro_and_wait(
                self.driver_num,
                SUBSCRIBE_WRITE_DONE,
                RO_ALLOW_WRITE,
                Region { start: self.offset, len: n },
                CMD_WRITE,
                (self.address + self.offset) as u32,
                n as u32,
            ),
        )
    }
}

impl Machine for FlashTransfer {
    type Ask = Op;

    type Answer = Reply;

    type Out = Result<(), ErrorCode>;

    open spec fn wf(self) -> bool {
        &&& self.chunk_size <= u32::MAX
        &&& self.address + self.offset <= usize::MAX
        &&& if self.phase == FlashPhase::QuerySize {
            self.offset == 0
        } else {
            self.offset < self.len
        }
    }

    open spec fn question(self) -> Op {
        match self.phase {
            FlashPhase::QuerySize | FlashPhase::CheckSize => chunk_size_query(self.driver_num),
            FlashPhase::Transfer => Op::Blocking(
                chunk_request(
                    self.driver_num,
                    self.direction,
                    (self.address + self.offset) as usize,
                    self.offset,
                    self.chunk_len(),
                ),
            ),
            FlashPhase::Unallow => match self.direction {
                Direction::Read => Op::UnallowRw {
                    driver_num: self.driver_num,
                    buffer_num: RW_ALLOW_READ,
                },
                Direction::Write => Op::UnallowRo {
                    driver_num: self.driver_num,
                    buffer_num: RO_ALLOW_WRITE,
                },
            },
        }
    }

    /// The address of the next chunk must be one that can be counted.
    open spec fn accepts(self, answer: Reply) -> bool {
        let moved = self.offset + self.chunk_len();
        self.phase == FlashPhase::Unallow && moved < self.len ==> self.address + moved
            <= usize::MAX
    }

    open spec fn after(self, answer: Reply) -> Progress<FlashTransfer, Result<(), ErrorCode>> {
        match (self.phase, answer) {
            (FlashPhase::Unallow, _) => self.continue_at((self.offset + self.chunk_len()) as usize),
            (_, Err(e)) => Progress::Done(Err(e)),
            (FlashPhase::QuerySize, Ok(args)) => FlashTransfer {
                chunk_size: args.0 as usize,
                ..self
            }.continue_at(0),
            (FlashPhase::CheckSize, Ok(args)) => if self.chunk_len() > args.0 {
                Progress::Done(Err(ErrorCode::NoMem))
            } else {
                Progress::Pending(FlashTransfer { phase: FlashPhase::Transfer, ..self })
            },
            (FlashPhase::Transfer, Ok(_)) => Progress::Pending(
                FlashTransfer { phase: FlashPhase::Unallow, ..self },
            ),
        }
    }

    proof fn after_is_wf(self, answer: Reply) {
    }

    fn ask(&self) -> (asked: Op) {
        match self.phase {
            FlashPhase::QuerySize | FlashPhase::CheckSize => SpiFlash::new(
                self.driver_num,
            ).get_chunk_size(),
            FlashPhase::Transfer => match self.direction {
                Direction::Read => self.read_chunk(),
                Direction::Write => self.write_chunk(),
            },
            FlashPhase::Unallow => match self.direction {
                Direction::Read => Op::UnallowRw {
                    driver_num: self.driver_num,
                    buffer_num: RW_ALLOW_READ,
                },
                Direction::Write => Op::UnallowRo {
                    driver_num: self.driver_num,
                    buffer_num: RO_ALLOW_WRITE,
                },
            },
        }
    }

    fn resume(self, answer: Reply) -> (next: Progress<FlashTransfer, Result<(), ErrorCode>>) {
        let mut next = self;
        match self.phase {
            FlashPhase::Unallow => {
                let n: usize = self.exec_chunk_len();
                next.offset = self.offset + n;
                next.phase = FlashPhase::CheckSize;
            },
            FlashPhase::QuerySize => match kernel::size_reply(answer) {
                Err(e) => return Progress::Done(Err(e)),
                Ok(size) => {
                    next.chunk_size = size;
                    next.phase = FlashPhase::CheckSize;
                },
            },
            FlashPhase::CheckSize => match kernel::size_reply(answer) {
                Err(e) => return Progress::Done(Err(e)),
                Ok(size) => {
                    if self.exec_chunk_len() > size {
                        return Progress::Done(Err(ErrorCode::NoMem));
                    }
                    next.phase = FlashPhase::Transfer;
                },
            },
            FlashPhase::Transfer => match answer {
                Err(e) => return Progress::Done(Err(e)),
                Ok(_) => {
                    next.phase = FlashPhase::Unallow;
                },
            },
        }
        if next.offset == next.len {
            Progress::Done(Ok(()))
        } else {
            Progress::Pending(next)
        }
    }
}

/// The bytes of `base` with those from `at` on replaced by `patch`.
pub open spec fn patched(base: Seq<u8>, at: int, patch: Seq<u8>) -> Seq<u8> {
    Seq::new(
        base.len(),
        |i: int|
            if at <= i < at + patch.len() {
                patch[i - at]
            } else {
                base[i]
            },
    )
}

/// What a write request that succeeded makes of the flash storage `mem`, the
/// caller's buffer being `buf`: the shared bytes stand at the address.
pub open spec fn write_effect(mem: Seq<u8>, buf: Seq<u8>, op: Op, reply: Reply) -> Seq<u8> {
    match (op, reply) {
        (Op::Blocking(request), Ok(_)) => if request.cmd == CMD_WRITE && request.ro is Some {
            let region = request.ro->0.region;
            patched(
                mem,
                request.arg1 as int,
                buf.subrange(region.start as int, region.start + request.arg2),
            )
        } else {
            mem
        },
        _ => mem,
    }
}

/// What a read request that succeeded makes of the caller's buffer `buf`, the
/// flash storage being `mem`: the shared region holds the bytes at the
/// address.
pub open spec fn read_effect(mem: Seq<u8>, buf: Seq<u8>, op: Op, reply: Reply) -> Seq<u8> {
    match (op, reply) {
        (Op::Blocking(request), Ok(_)) => if request.cmd == CMD_READ && request.rw is Some {
            let region = request.rw->0.region;
            patched(
                buf,
                region.start as int,
                mem.subrange(request.arg1 as int, request.arg1 + request.arg2),
            )
        } else {
            buf
        },
        _ => buf,
    }
}

/// The flash storage after a run of a transfer.
pub open spec fn mem_after(
    mem: Seq<u8>,
    buf: Seq<u8>,
    p: Progress<FlashTransfer, Result<(), ErrorCode>>,
    answers: Seq<Reply>,
) -> Seq<u8>
    decreases answers.len(),
{
    if answers.len() == 0 {
        mem
    } else {
        let before = mem_after(mem, buf, p, answers.drop_last());
        match machine::run(p, answers.drop_last()) {
            Progress::Pending(m) => write_effect(before, buf, m.question(), answers.last()),
            Progress::Done(_) => before,
        }
    }
}

/// The caller's buffer after a run of a transfer.
pub open spec fn buf_after(
    mem: Seq<u8>,
    buf: Seq<u8>,
    p: Progress<FlashTransfer, Result<(), ErrorCode>>,
    answers: Seq<Reply>,
) -> Seq<u8>
    decreases answers.len(),
{
    if answers.len() == 0 {
        buf
    } else {
        let before = buf_after(mem, buf, p, answers.drop_last());
        match machine::run(p, answers.drop_last()) {
            Progress::Pending(m) => read_effect(mem, before, m.question(), answers.last()),
            Progress::Done(_) => before,
        }
    }
}

/// How many bytes a state of a transfer has moved.
spec fn moved(m: FlashTransfer) -> int {
    if m.phase == FlashPhase::Unallow {
        m.offset + m.chunk_len()
    } else {
        m.offset as int
    }
}

proof fn lemma_write_run(
    driver_num: u32,
    address: usize,
    len: usize,
    buf: Seq<u8>,
    mem: Seq<u8>,
    answers: Seq<Reply>,
)
    requires
        len <= buf.len() <= usize::MAX,
        address + len <= mem.len(),
        address + len <= u32::MAX + 1,
        machine::answered(
            FlashTransfer::at_start(
                driver_num,
                Direction::Write,
                address,
                len,
                buf.len() as usize,
            ),
            answers,
        ),
    ensures
        ({
            let p = FlashTransfer::at_start(
                driver_num,
                Direction::Write,
                address,
                len,
                buf.len() as usize,
            );
            let now = mem_after(mem, buf, p, answers);
            match machine::run(p, answers) {
                Progress::Pending(m) => {
                    &&& m.wf()
                    &&& m.driver_num == driver_num && m.direction == Direction::Write
                    &&& m.address == address && m.len == len
                    &&& moved(m) <= len
                    &&& now == patched(mem, address as int, buf.take(moved(m)))
                },
                Progress::Done(Ok(_)) => now == patched(mem, address as int, buf.take(len as int)),
                Progress::Done(Err(_)) => exists|k: int|
                    0 <= k <= len && now == patched(mem, address as int, #[trigger] buf.take(k)),
            }
        }),
    decreases answers.len(),
{
    let p = FlashTransfer::at_start(
        driver_num,
        Direction::Write,
        address,
        len,
        buf.len() as usize,
    );
    if answers.len() == 0 {
        assert(patched(mem, address as int, buf.take(0)) =~= mem);
    } else {
        let before = answers.drop_last();
        lemma_write_run(driver_num, address, len, buf, mem, before);
        if let Progress::Pending(m) = machine::run(p, before) {
            let mid = mem_after(mem, buf, p, before);
            m.after_is_wf(answers.last());
            if m.phase == FlashPhase::Transfer && answers.last() is Ok {
                let n = m.chunk_len();
                assert(buf.take(m.offset + n) =~= buf.take(m.offset as int) + buf.subrange(
                    m.offset as int,
                    m.offset + n,
                ));
                assert(patched(
                    mid,
                    address + m.offset,
                    buf.subrange(m.offset as int, m.offset + n),
                ) =~= patched(mem, address as int, buf.take(m.offset + n)));
            } else {
                assert(mem_after(mem, buf, p, answers) == mid);
                assert(mid == patched(mem, address as int, buf.take(moved(m))));
            }
        }
    }
}

/// A write that ends well has put the first `len` bytes of the buffer at the
/// address, and nothing else has changed. One that fails has done so for a
/// first part of them.
pub proof fn law_flash_write(
    driver_num: u32,
    address: usize,
    len: usize,
    buf: Seq<u8>,
    mem: Seq<u8>,
    answers: Seq<Reply>,
)
    requires
        len <= buf.len() <= usize::MAX,
        address + len <= mem.len(),
        address + len <= u32::MAX + 1,
        machine::answered(
            FlashTransfer::at_start(
                driver_num,
                Direction::Write,
                address,
                len,
                buf.len() as usize,
            ),
            answers,
        ),
    ensures
        ({
            let p = FlashTransfer::at_start(
                driver_num,
                Direction::Write,
                address,
                len,
                buf.len() as usize,
            );
            let now = mem_after(mem, buf, p, answers);
            match machine::run(p, answers) {
                Progress::Done(Ok(_)) => now == patched(mem, address as int, buf.take(len as int)),
                _ => exists|k: int|
                    0 <= k <= len && now == patched(mem, address as int, #[trigger] buf.take(k)),
            }
        }),
{
    lemma_write_run(driver_num, address, len, buf, mem, answers);
}

proof fn lemma_read_run(
    driver_num: u32,
    address: usize,
    len: usize,
    buf: Seq<u8>,
    mem: Seq<u8>,
    answers: Seq<Reply>,
)
    requires
        len <= buf.len() <= usize::MAX,
        address + len <= mem.len(),
        address + len <= u32::MAX + 1,
        machine::answered(
            FlashTransfer::at_start(driver_num, Direction::Read, address, len, buf.len() as usize),
            answers,
        ),
    ensures
        ({
            let p = FlashTransfer::at_start(
                driver_num,
                Direction::Read,
                address,
                len,
                buf.len() as usize,
            );
            let now = buf_after(mem, buf, p, answers);
            let stored = mem.subrange(address as int, address + len);
            match machine::run(p, answers) {
                Progress::Pending(m) => {
                    &&& m.wf()
                    &&& m.driver_num == driver_num && m.direction == Direction::Read
                    &&& m.address == address && m.len == len
                    &&& moved(m) <= len
                    &&& now == patched(buf, 0, stored.take(moved(m)))
                },
                Progress::Done(Ok(_)) => now == patched(buf, 0, stored),
                Progress::Done(Err(_)) => exists|k: int|
                    0 <= k <= len && now == patched(buf, 0, #[trigger] stored.take(k)),
            }
        }),
    decreases answers.len(),
{
    let p = FlashTransfer::at_start(
        driver_num,
        Direction::Read,
        address,
        len,
        buf.len() as usize,
    );
    let stored = mem.subrange(address as int, address + len);
    assert(stored.take(len as int) =~= stored);
    if answers.len() == 0 {
        assert(patched(buf, 0, stored.take(0)) =~= buf);
    } else {
        let before = answers.drop_last();
        lemma_read_run(driver_num, address, len, buf, mem, before);
        if let Progress::Pending(m) = machine::run(p, before) {
            let mid = buf_after(mem, buf, p, before);
            m.after_is_wf(answers.last());
            if m.phase == FlashPhase::Transfer && answers.last() is Ok {
                let n = m.chunk_len();
                assert(patched(
                    mid,
                    m.offset as int,
                    mem.subrange(address + m.offset, address + m.offset + n),
                ) =~= patched(buf, 0, stored.take(m.offset + n)));
            } else {
                assert(buf_after(mem, buf, p, answers) == mid);
                assert(mid == patched(buf, 0, stored.take(moved(m))));
            }
        }
    }
}

/// A read that ends well has filled the first `len` bytes of the buffer with
/// the bytes stored at the address, and left the rest of it. One that fails
/// has done so for a first part of them.
pub proof fn law_flash_read(
    driver_num: u32,
    address: usize,
    len: usize,
    buf: Seq<u8>,
    mem: Seq<u8>,
    answers: Seq<Reply>,
)
    requires
        len <= buf.len() <= usize::MAX,
        address + len <= mem.len(),
        address + len <= u32::MAX + 1,
        machine::answered(
            FlashTransfer::at_start(driver_num, Direction::Read, address, len, buf.len() as usize),
            answers,
        ),
    ensures
        ({
            let p = FlashTransfer::at_start(
                driver_num,
                Direction::Read,
                address,
                len,
                buf.len() as usize,
            );
            let now = buf_after(mem, buf, p, answers);
            let stored = mem.subrange(address as int, address + len);
            match machine::run(p, answers) {
                Progress::Done(Ok(_)) => now == patched(buf, 0, stored),
                _ => exists|k: int|
                    0 <= k <= len && now == patched(buf, 0, #[trigger] stored.take(k)),
            }
        }),
{
    lemma_read_run(driver_num, address, len, buf, mem, answers);
}

/// What a read gives back of a write: after a write and a read of the same
/// range that both end well, the read buffer starts with the written bytes,
/// however the device cut the two transfers into chunks.
pub proof fn law_flash_read_back(
    driver_num: u32,
    address: usize,
    len: usize,
    data: Seq<u8>,
    buf: Seq<u8>,
    mem: Seq<u8>,
    write_answers: Seq<Reply>,
    read_answers: Seq<Reply>,
)
    requires
        len <= data.len() <= usize::MAX,
        len <= buf.len() <= usize::MAX,
        address + len <= mem.len(),
        address + len <= u32::MAX + 1,
        machine::answered(
            FlashTransfer::at_start(
                driver_num,
                Direction::Write,
                address,
                len,
                data.len() as usize,
            ),
            write_answers,
        ),
        machine::run(
            FlashTransfer::at_start(
                driver_num,
                Direction::Write,
                address,
                len,
                data.len() as usize,
            ),
            write_answers,
        ) matches Progress::Done(Ok(_)),
        machine::answered(
            FlashTransfer::at_start(driver_num, Direction::Read, address, len, buf.len() as usize),
            read_answers,
        ),
        machine::run(
            FlashTransfer::at_start(driver_num, Direction::Read, address, len, buf.len() as usize),
            read_answers,
        ) matches Progress::Done(Ok(_)),
    ensures
        ({
            let write = FlashTransfer::at_start(
                driver_num,
                Direction::Write,
                address,
                len,
                data.len() as usize,
            );
            let read = FlashTransfer::at_start(
                driver_num,
                Direction::Read,
                address,
                len,
                buf.len() as usize,
            );
            let stored = mem_after(mem, data, write, write_answers);
            buf_after(stored, buf, read, read_answers).take(len as int) == data.take(len as int)
        }),
{
    let write = FlashTransfer::at_start(
        driver_num,
        Direction::Write,
        address,
        len,
        data.len() as usize,
    );
    let stored = mem_after(mem, data, write, write_answers);
    law_flash_write(driver_num, address, len, data, mem, write_answers);
    law_flash_read(driver_num, address, len, buf, stored, read_answers);
    assert(patched(buf, 0, stored.subrange(address as int, address + len)).take(len as int)
        =~= data.take(len as int));
}

/// Every chunk keeps to the size that the device reported just before it and
/// lies inside the part of the buffer that is still to be moved.
pub proof fn law_flash_chunk_bounds(m: FlashTransfer, reported: UpcallArgs)
    requires
        m.wf(),
        m.phase == FlashPhase::CheckSize,
    ensures
        m.after(Ok(reported)) is Pending <==> m.chunk_len() <= reported.0,
        m.offset + m.chunk_len() <= m.len,
        m.after(Ok(reported)) matches Progress::Pending(next) ==> next.question() == Op::Blocking(
            chunk_request(
                m.driver_num,
                m.direction,
                (m.address + m.offset) as usize,
                m.offset,
                m.chunk_len(),
            ),
        ),
{
}

/// Where a transfer stands after some answers.
proof fn lemma_flash_steps(
    driver_num: u32,
    direction: Direction,
    address: usize,
    len: usize,
    buf_len: usize,
    answers: Seq<Reply>,
)
    requires
        len <= buf_len,
        machine::answered(
            FlashTransfer::at_start(driver_num, direction, address, len, buf_len),
            answers,
        ),
    ensures
        ({
            let p = FlashTransfer::at_start(driver_num, direction, address, len, buf_len);
            let n = answers.len() as int;
            let size = answers[0]->Ok_0.0 as int;
            machine::run(p, answers) matches Progress::Pending(m) ==> {
                &&& m.wf()
                &&& m.driver_num == driver_num && m.direction == direction
                &&& m.address == address && m.len == len
                &&& n == 0 ==> m.phase == FlashPhase::QuerySize && m.offset == 0
                &&& n > 0 ==> {
                    &&& answers[0] is Ok
                    &&& m.chunk_size == size
                    &&& m.offset < len
                    &&& n % 3 == 1 ==> m.phase == FlashPhase::CheckSize && m.offset == (n / 3)
                        * size
                    &&& n % 3 == 2 ==> m.phase == FlashPhase::Transfer && m.offset == (n / 3)
                        * size
                    &&& n % 3 == 0 ==> m.phase == FlashPhase::Unallow && m.offset == (n / 3 - 1)
                        * size
                }
            }
        }),
    decreases answers.len(),
{
    let p = FlashTransfer::at_start(driver_num, direction, address, len, buf_len);
    if answers.len() > 0 {
        let before = answers.drop_last();
        lemma_flash_steps(driver_num, direction, address, len, buf_len, before);
        if let Progress::Pending(m) = machine::run(p, before) {
            m.after_is_wf(answers.last());
            if before.len() > 0 {
                assert(before[0] == answers[0]);
            }
            let j = before.len() as int / 3;
            let size = answers[0]->Ok_0.0 as int;
            assert((j - 1) * size + size == j * size) by (nonlinear_arith);
            assert(0 * size == 0);
        }
    }
}

/// How a transfer is cut. First the device is asked for its chunk size. Then
/// for each chunk it is asked again, the chunk is moved, and the buffer is taken
/// back. Chunk number `k` starts `k` chunk sizes behind the start of the
/// transfer, in the flash storage as well as in the buffer, and is as long as
/// the chunk size or what is left, whichever is less.
pub proof fn law_flash_chunks(
    driver_num: u32,
    direction: Direction,
    address: usize,
    len: usize,
    buf_len: usize,
    answers: Seq<Reply>,
    i: int,
)
    requires
        len <= buf_len,
        machine::answered(
            FlashTransfer::at_start(driver_num, direction, address, len, buf_len),
            answers,
        ),
        0 <= i < answers.len(),
    ensures
        ({
            let p = FlashTransfer::at_start(driver_num, direction, address, len, buf_len);
            let size = answers[0]->Ok_0.0 as int;
            let k = (i - 2) / 3;
            let start = k * size;
            match machine::asked(p, answers)[i] {
                Op::Command { command, expect } => {
                    &&& i == 0 || i % 3 == 1
                    &&& command.driver_num == driver_num
                    &&& command.command_num == 5
                    &&& command.arg0 == 0 && command.arg1 == 0
                    &&& expect is Word
                },
                Op::Blocking(request) => {
                    &&& i % 3 == 2
                    &&& start < len
                    &&& request.driver_num == driver_num
                    &&& request.arg1 == (address + start) as u32
                    &&& request.arg2 == if size < len - start {
                        size as u32
                    } else {
                        (len - start) as u32
                    }
                    &&& match direction {
                        Direction::Read => {
                            &&& request.cmd == 2
                            &&& request.subscribe_num == 0
                            &&& request.ro is None
                            &&& request.rw matches Some(share)
                            &&& share.buffer_num == 0
                            &&& share.region.start == start
                            &&& share.region.len == if size < len - start {
                                size
                            } else {
                                len - start
                            }
                        },
                        Direction::Write => {
                            &&& request.cmd == 3
                            &&& request.subscribe_num == 1
                            &&& request.rw is None
                            &&& request.ro matches Some(share)
                            &&& share.buffer_num == 0
                            &&& share.region.start == start
                            &&& share.region.len == if size < len - start {
                                size
                            } else {
                                len - start
                            }
                        },
                    }
                },
                Op::UnallowRw { driver_num: d, buffer_num } => {
                    &&& i > 0 && i % 3 == 0
                    &&& direction is Read
                    &&& d == driver_num && buffer_num == 0
                },
                Op::UnallowRo { driver_num: d, buffer_num } => {
                    &&& i > 0 && i % 3 == 0
                    &&& direction is Write
                    &&& d == driver_num && buffer_num == 0
                },
            }
        }),
{
    let p = FlashTransfer::at_start(driver_num, direction, address, len, buf_len);
    machine::law_runs_step_by_step(p, answers, i);
    lemma_flash_steps(driver_num, direction, address, len, buf_len, answers.take(i));
    if i > 0 {
        assert(answers.take(i)[0] == answers[0]);
        assert(i % 3 == 2 ==> (i - 2) / 3 == i / 3);
    }
}

/// When a transfer ends. Too small a buffer is refused at once. An error of the
/// device ends the transfer with that error, except when a buffer is taken
/// back. A chunk that is larger than the device then allows ends it too. It
/// ends well exactly once the last chunk has been moved and its buffer taken
/// back, or at once if there is nothing to move; in every other case it goes on.
pub proof fn law_flash_ends(
    driver_num: u32,
    direction: Direction,
    address: usize,
    len: usize,
    buf_len: usize,
    answers: Seq<Reply>,
)
    requires
        machine::answered(
            FlashTransfer::at_start(driver_num, direction, address, len, buf_len),
            answers,
        ),
    ensures
        ({
            let p = FlashTransfer::at_start(driver_num, direction, address, len, buf_len);
            let end = machine::run(p, answers);
            let n = answers.len() as int;
            let size = answers[0]->Ok_0.0 as int;
            // Where the chunk starts that the last answer belongs to.
            let start = if n % 3 == 1 {
                (n / 3 - 1) * size
            } else {
                (n / 3) * size
            };
            if buf_len < len {
                end matches Progress::Done(r) && r is Err && r->Err_0 == ErrorCode::NoMem
            } else if n == 0 {
                end is Pending
            } else if n > 1 && n % 3 == 1 {
                if len - start <= size {
                    end matches Progress::Done(r) && r is Ok
                } else {
                    end is Pending
                }
            } else if answers.last() is Err {
                end matches Progress::Done(r) && r is Err && r->Err_0 == answers.last()->Err_0
            } else if n == 1 {
                if len == 0 {
                    end matches Progress::Done(r) && r is Ok
                } else {
                    end is Pending
                }
            } else if n % 3 == 2 && answers.last()->Ok_0.0 < size && answers.last()->Ok_0.0 < len
                - start {
                end matches Progress::Done(r) && r is Err && r->Err_0 == ErrorCode::NoMem
            } else {
                end is Pending
            }
        }),
{
    let p = FlashTransfer::at_start(driver_num, direction, address, len, buf_len);
    let n = answers.len() as int;
    if n > 0 {
        machine::law_runs_step_by_step(p, answers, 0);
        assert(answers.take(0) =~= Seq::empty());
        let before = answers.drop_last();
        lemma_flash_steps(driver_num, direction, address, len, buf_len, before);
        if before.len() > 0 {
            assert(before[0] == answers[0]);
        }
        assert(n % 3 != 0 ==> (n - 1) / 3 == n / 3);
    }
}

/// The numbers of the driver.
pub proof fn law_flash_numbers()
    ensures
        CMD_EXISTS == 0 && CMD_GET_CAPACITY == 1 && CMD_READ == 2 && CMD_WRITE == 3 && CMD_ERASE
            == 4 && CMD_GET_CHUNK_SIZE == 5,
        SUBSCRIBE_READ_DONE == 0 && SUBSCRIBE_WRITE_DONE == 1 && SUBSCRIBE_ERASE_DONE == 2,
        RO_ALLOW_WRITE == 0 && RW_ALLOW_READ == 0,
{
}

} // verus!
