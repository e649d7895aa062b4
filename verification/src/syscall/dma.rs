//! Direct memory access between bus addresses.

use vstd::prelude::*;

use crate::blocking::{subscribe_allow_ro_and_wait, subscribe_and_wait};
use crate::error::ErrorCode;
use crate::kernel;
use crate::kernel::{BlockingRequest, Command, Expect, Op, Region, Reply, Share};
use crate::machine;
use crate::machine::{Machine, Progress};

verus! {

/// Driver number of the interface.
pub const DMA_DRIVER_NUM: u32 = 0x9000_0000;

/// Sets the number of bytes to move.
pub const CMD_SET_BYTE_XFER_COUNT: u32 = 0;

/// Sets the source address.
pub const CMD_SET_SRC_ADDR: u32 = 1;

/// Sets the destination address.
pub const CMD_SET_DEST_ADDR: u32 = 2;

/// Starts a transfer from the source address.
pub const CMD_XFER_AXI_TO_AXI: u32 = 3;

/// Starts a transfer from the shared buffer.
pub const CMD_XFER_LOCAL_TO_AXI: u32 = 4;

/// Read-only buffer with a local source.
pub const RO_BUFFER_LOCAL_SOURCE: u32 = 0;

/// Transfer done callback.
pub const SUBSCRIBE_XFER_DONE: u32 = 0;

/// A bus address (64 bits wide).
pub type AXIAddr = u64;

/// Address conversion of a platform.
pub trait DMAMapping: Send + Sync {
    /// Converts a local address to one that the controller can reach.
    fn mcu_sram_to_mcu_axi(&self, addr: u32) -> (r: Result<AXIAddr, ErrorCode>);

    /// Converts a bus address of the root of trust to one that the controller
    /// can reach.
    fn cptra_axi_to_mcu_axi(&self, addr: AXIAddr) -> (r: Result<AXIAddr, ErrorCode>);
}

/// Where the data of a transfer comes from.
#[derive(Debug, Clone)]
pub enum DMASource<'a> {
    /// A bus address.
    Address(AXIAddr),
    /// A local buffer.
    Buffer(&'a [u8]),
}

/// A transfer to be made.
#[derive(Debug, Clone)]
pub struct DMATransaction<'a> {
    /// Number of bytes to transfer.
    pub byte_count: usize,
    /// Source of the transfer.
    pub source: DMASource<'a>,
    /// Destination address of the transfer.
    pub dest_addr: AXIAddr,
}

/// The controller.
#[derive(Copy, Clone, Debug, PartialEq, Eq, Structural)]
pub struct DMA {
    pub driver_num: u32,
}

/// The step that is due in a [`DmaXfer`].
#[derive(Copy, Clone, Debug, PartialEq, Eq, Structural)]
pub enum DmaPhase {
    SetCount,
    SetSource,
    SetDest,
    Start,
}

/// A transfer under way.
#[derive(Copy, Clone, Debug, PartialEq, Eq)]
pub struct DmaXfer {
    pub driver_num: u32,
    pub byte_count: usize,
    /// The source address, or none for a local buffer.
    pub src_addr: Option<AXIAddr>,
    /// The length of the local buffer, where there is one.
    pub buffer_len: usize,
    pub dest_addr: AXIAddr,
    pub phase: DmaPhase,
}

/// The low half of an address.
pub open spec fn low_half(addr: AXIAddr) -> u32 {
    (addr % 0x1_0000_0000) as u32
}

/// The high half of an address.
pub open spec fn high_half(addr: AXIAddr) -> u32 {
    (addr / 0x1_0000_0000) as u32
}

/// The two words that a command carries determine the address.
pub proof fn law_address_halves(addr: AXIAddr)
    ensures
        low_half(addr) + high_half(addr) * 0x1_0000_0000 == addr,
{
}

fn split_address(addr: AXIAddr) -> (halves: (u32, u32))
    ensures
        halves == (low_half(addr), high_half(addr)),
{
    assert(addr & 0xFFFF_FFFF == addr % 0x1_0000_0000) by (bit_vector);
    assert(addr >> 32 == addr / 0x1_0000_0000) by (bit_vector);
    ((addr & 0xFFFF_FFFF) as u32, (addr >> 32) as u32)
}

/// The requests that a transfer makes, in order: byte count, source address
/// (unless the source is a buffer), destination address, start.
pub open spec fn xfer_plan(
    driver_num: u32,
    byte_count: usize,
    src_addr: Option<AXIAddr>,
    buffer_len: usize,
    dest_addr: AXIAddr,
) -> Seq<Op> {
    let count = seq![
        kernel::unit_command(driver_num, CMD_SET_BYTE_XFER_COUNT, byte_count as u32, 0),
    ];
    let dest = seq![
        kernel::unit_command(
            driver_num,
            CMD_SET_DEST_ADDR,
            low_half(dest_addr),
            high_half(dest_addr),
        ),
    ];
    match src_addr {
        Some(src) => count + seq![
            kernel::unit_command(driver_num, CMD_SET_SRC_ADDR, low_half(src), high_half(src)),
        ] + dest + seq![
            Op::Blocking(
                BlockingRequest {
                    driver_num,
                    subscribe_num: SUBSCRIBE_XFER_DONE,
                    ro: None,
                    rw: None,
                    cmd: CMD_XFER_AXI_TO_AXI,
                    arg1: 0,
                    arg2: 0,
                },
            ),
        ],
        None => count + dest + seq![
            Op::Blocking(
                BlockingRequest {
                    driver_num,
                    subscribe_num: SUBSCRIBE_XFER_DONE,
                    ro: Some(
                        Share {
                            buffer_num: RO_BUFFER_LOCAL_SOURCE,
                            region: Region { start: 0, len: buffer_len },
                        },
                    ),
                    rw: None,
                    cmd: CMD_XFER_LOCAL_TO_AXI,
                    arg1: 0,
                    arg2: 0,
                },
            ),
        ],
    }
}

impl Default for DMA {
    fn default() -> (dma: DMA)
        ensures
            dma.driver_num == DMA_DRIVER_NUM,
    {
        DMA::new()
    }
}

impl DMA {
    /// The controller behind its driver number.
    pub fn new() -> (dma: DMA)
        ensures
            dma.driver_num == DMA_DRIVER_NUM,
    {
        DMA { driver_num: DMA_DRIVER_NUM }
    }

    /// Makes a transfer.
    pub fn xfer(&self, transaction: &DMATransaction<'_>) -> (xfer: DmaXfer)
        ensures
            xfer.plan() == xfer_plan(
                self.driver_num,
                transaction.byte_count,
                match transaction.source {
                    DMASource::Address(addr) => Some(addr),
                    DMASource::Buffer(_) => None,
                },
                match transaction.source {
                    DMASource::Address(_) => 0,
                    DMASource::Buffer(buffer) => buffer@.len() as usize,
                },
                transaction.dest_addr,
            ),
            xfer.pos() == 0,
            xfer.wf(),
    {
        let (src_addr, buffer_len): (Option<AXIAddr>, usize) = match transaction.source {
            DMASource::Address(addr) => (Some(addr), 0),
            DMASource::Buffer(buffer) => (None, buffer.len()),
        };
        DmaXfer {
            driver_num: self.driver_num,
            byte_count: transaction.byte_count,
            src_addr,
            buffer_len,
            dest_addr: transaction.dest_addr,
            phase: DmaPhase::SetCount,
        }
    }
}

impl DmaXfer {
    /// The requests of this transfer.
    pub open spec fn plan(self) -> Seq<Op> {
        xfer_plan(
            self.driver_num,
            self.byte_count,
            self.src_addr,
            self.buffer_len,
            self.dest_addr,
        )
    }

    /// How many requests have been made.
    pub open spec fn pos(self) -> int {
        let src: int = if self.src_addr is Some { 1 } else { 0 };
        match self.phase {
            DmaPhase::SetCount => 0,
            DmaPhase::SetSource => 1,
            DmaPhase::SetDest => 1 + src,
            DmaPhase::Start => 2 + src,
        }
    }

    /// The phase that follows.
    pub open spec fn next_phase(self) -> DmaPhase {
        match self.phase {
            DmaPhase::SetCount => if self.src_addr is Some {
                DmaPhase::SetSource
            } else {
                DmaPhase::SetDest
            },
            DmaPhase::SetSource => DmaPhase::SetDest,
            DmaPhase::SetDest => DmaPhase::Start,
            DmaPhase::Start => DmaPhase::Start,
        }
    }

    fn set_address(&self, command_num: u32, addr: AXIAddr) -> (op: Op)
        ensures
            op == kernel::unit_command(
                self.driver_num,
                command_num,
                low_half(addr),
                high_half(addr),
            ),
    {
        let (arg0, arg1) = split_address(addr);
        Op::Command {
            command: Command { driver_num: self.driver_num, command_num, arg0, arg1 },
            expect: Expect::Unit,
        }
    }

    fn xfer_src_address(&self) -> (op: Op)
        requires
            self.src_addr is Some,
        ensures
            op == self.plan()[3],
    {
        Op::Blocking(
            subscribe_and_wait(
                self.driver_num,
                SUBSCRIBE_XFER_DONE,
                CMD_XFER_AXI_TO_AXI,
                0,
                0,
            ),
        )
    }

    fn xfer_src_buffer(&self) -> (op: Op)
        requires
            self.src_addr is None,
        ensures
            op == self.plan()[2],
    {
        Op::Blocking(
            subscribe_allow_ro_and_wait(
                self.driver_num,
                SUBSCRIBE_XFER_DONE,
                RO_BUFFER_LOCAL_SOURCE,
                Region { start: 0, len: self.buffer_len },
                CMD_XFER_LOCAL_TO_AXI,
                0,
                0,
            ),
        )
    }

    /// The set-up command that is due.
    fn setup(&self) -> (op: Op)
        requires
            self.wf(),
            self.phase != DmaPhase::Start,
        ensures
            op == self.plan()[self.pos()],
    {
        match self.phase {
            DmaPhase::SetSource => self.set_address(CMD_SET_SRC_ADDR, self.src_addr.unwrap()),
            DmaPhase::SetDest => self.set_address(CMD_SET_DEST_ADDR, self.dest_addr),
            _ => Op::Command {
                command: Command {
                    driver_num: self.driver_num,
                    command_num: CMD_SET_BYTE_XFER_COUNT,
                    arg0: self.byte_count as u32,
                    arg1: 0,
                },
                expect: Expect::Unit,
            },
        }
    }
}

impl Machine for DmaXfer {
    type Ask = Op;

    type Answer = Reply;

    type Out = Result<(), ErrorCode>;

    open spec fn wf(self) -> bool {
        self.phase == DmaPhase::SetSource ==> self.src_addr is Some
    }

    open spec fn question(self) -> Op {
        self.plan()[self.pos()]
    }

    open spec fn accepts(self, answer: Reply) -> bool {
        true
    }

    open spec fn after(self, answer: Reply) -> Progress<DmaXfer, Result<(), ErrorCode>> {
        match answer {
            Err(e) => Progress::Done(Err(e)),
            Ok(_) => if self.pos() + 1 == self.plan().len() {
                Progress::Done(Ok(()))
            } else {
                Progress::Pending(DmaXfer { phase: self.next_phase(), ..self })
            },
        }
    }

    proof fn after_is_wf(self, answer: Reply) {
    }

    fn ask(&self) -> (asked: Op) {
        match self.phase {
            DmaPhase::Start => if self.src_addr.is_some() {
                self.xfer_src_address()
            } else {
                self.xfer_src_buffer()
            },
            _ => self.setup(),
        }
    }

    fn resume(self, answer: Reply) -> (next: Progress<DmaXfer, Result<(), ErrorCode>>) {
        if let Err(e) = answer {
            return Progress::Done(Err(e));
        }
        let mut next = self;
        match self.phase {
            DmaPhase::SetCount => {
                next.phase = if self.src_addr.is_some() {
                    DmaPhase::SetSource
                } else {
                    DmaPhase::SetDest
                };
            },
            DmaPhase::SetSource => {
                next.phase = DmaPhase::SetDest;
            },
            DmaPhase::SetDest => {
                next.phase = DmaPhase::Start;
            },
            DmaPhase::Start => {
                return Progress::Done(Ok(()));
            },
        }
        Progress::Pending(next)
    }
}

/// A transfer makes the requests of its plan in their order and stops at the
/// first that fails, with its error. It succeeds exactly when all of them did.
pub proof fn law_dma_order(start: DmaXfer, answers: Seq<Reply>)
    requires
        start.wf(),
        start.pos() == 0,
        machine::answered(Progress::Pending(start), answers),
    ensures
        answers.len() <= start.plan().len(),
        machine::asked(Progress::Pending(start), answers) == start.plan().take(
            answers.len() as int,
        ),
        forall|i: int| 0 <= i < answers.len() - 1 ==> (#[trigger] answers[i]) is Ok,
        ({
            let end = machine::run(Progress::Pending(start), answers);
            if answers.len() > 0 && answers.last() is Err {
                end == Progress::<DmaXfer, Result<(), ErrorCode>>::Done(Err(answers.last()->Err_0))
            } else if answers.len() == start.plan().len() {
                end == Progress::<DmaXfer, Result<(), ErrorCode>>::Done(Ok(()))
            } else {
                &&& end matches Progress::Pending(m)
                &&& m.wf()
                &&& m.plan() == start.plan()
                &&& m.src_addr == start.src_addr
                &&& m.pos() == answers.len()
            }
        }),
    decreases answers.len(),
{
    if answers.len() == 0 {
        assert(start.plan().take(0) =~= Seq::empty());
    } else {
        let before = answers.drop_last();
        law_dma_order(start, before);
        let n = before.len() as int;
        assert(start.plan().take(n + 1) =~= start.plan().take(n).push(start.plan()[n]));
        assert forall|i: int| 0 <= i < answers.len() - 1 implies (#[trigger] answers[i]) is Ok by {
            assert(answers[i] == before[i]);
        }
    }
}

/// What a transfer tells the controller, in order: how many bytes, where they
/// come from if that is a bus address, where they go, and to start. The two
/// words of an address make up the address. A transfer from a local buffer
/// shares all of the buffer.
pub proof fn law_dma_requests(
    driver_num: u32,
    byte_count: usize,
    src_addr: Option<AXIAddr>,
    buffer_len: usize,
    dest_addr: AXIAddr,
)
    ensures
        ({
            let plan = xfer_plan(driver_num, byte_count, src_addr, buffer_len, dest_addr);
            let src: int = if src_addr is Some { 1 } else { 0 };
            &&& plan.len() == 3 + src
            &&& plan[0] matches Op::Command { command, expect }
            &&& command.driver_num == driver_num && command.command_num == 0
            &&& command.arg0 == byte_count as u32 && command.arg1 == 0
            &&& expect is Unit
            &&& src_addr matches Some(addr) ==> {
                &&& plan[1] matches Op::Command { command, expect }
                &&& command.driver_num == driver_num && command.command_num == 1
                &&& command.arg0 + command.arg1 * 0x1_0000_0000 == addr
                &&& expect is Unit
            }
            &&& plan[1 + src] matches Op::Command { command: to, expect: done }
            &&& to.driver_num == driver_num && to.command_num == 2
            &&& to.arg0 + to.arg1 * 0x1_0000_0000 == dest_addr
            &&& done is Unit
            &&& plan[2 + src] matches Op::Blocking(request)
            &&& request.driver_num == driver_num && request.subscribe_num == 0
            &&& request.arg1 == 0 && request.arg2 == 0
            &&& request.rw is None
            &&& if src_addr is Some {
                request.cmd == 3 && request.ro is None
            } else {
                &&& request.cmd == 4
                &&& request.ro matches Some(share)
                &&& share.buffer_num == 0
                &&& share.region.start == 0 && share.region.len == buffer_len
            }
        }),
{
    law_address_halves(dest_addr);
    if src_addr is Some {
        law_address_halves(src_addr->0);
    }
}

/// The numbers of the driver.
pub proof fn law_dma_numbers()
    ensures
        DMA_DRIVER_NUM == 0x9000_0000,
        CMD_SET_BYTE_XFER_COUNT == 0 && CMD_SET_SRC_ADDR == 1 && CMD_SET_DEST_ADDR == 2
            && CMD_XFER_AXI_TO_AXI == 3 && CMD_XFER_LOCAL_TO_AXI == 4,
        RO_BUFFER_LOCAL_SOURCE == 0 && SUBSCRIBE_XFER_DONE == 0,
{
}

} // verus!
