//! The log kept in flash storage.

use vstd::prelude::*;

use crate::blocking::{
    subscribe_allow_ro_and_wait, subscribe_allow_rw_and_wait, subscribe_and_wait,
};
use crate::kernel;
use crate::kernel::{BlockingRequest, Command, Expect, Op, Region, Reply, Share, UpcallArgs};
use crate::machine;
use crate::machine::{Machine, Progress};

verus! {

/// Driver number of the log.
pub const DRIVER_NUM_LOGGING_FLASH: u32 = 0x9001_0000;

/// Read done callback.
pub const SUBSCRIBE_READ_DONE: u32 = 0;

/// Seek done callback.
pub const SUBSCRIBE_SEEK_DONE: u32 = 1;

/// Append done callback.
pub const SUBSCRIBE_APPEND_DONE: u32 = 2;

/// Sync done callback.
pub const SUBSCRIBE_SYNC_DONE: u32 = 3;

/// Erase done callback.
pub const SUBSCRIBE_ERASE_DONE: u32 = 4;

/// Read-only buffer with the entry to append.
pub const RO_ALLOW_APPEND: u32 = 0;

/// Read-write buffer that receives an entry.
pub const RW_ALLOW_READ: u32 = 0;

/// Succeeds if the driver is included on the platform.
pub const CMD_EXISTS: u32 = 0;

/// Reads an entry.
pub const CMD_READ: u32 = 1;

/// Appends an entry.
pub const CMD_APPEND: u32 = 2;

/// Seeks to the beginning.
pub const CMD_SEEK: u32 = 3;

/// Writes the log out.
pub const CMD_SYNC: u32 = 4;

/// Clears the log.
pub const CMD_ERASE: u32 = 5;

/// Returns the capacity.
pub const CMD_GET_CAP: u32 = 6;

/// The log driver.
#[derive(Copy, Clone, Debug, PartialEq, Eq, Structural)]
pub struct LoggingSyscall {
    pub driver_num: u32,
}

/// A call that shares a buffer with the log and takes it back once it has
/// succeeded. It ends with the reply to the request.
#[derive(Copy, Clone, Debug, PartialEq, Eq)]
pub struct LogCall {
    pub request: BlockingRequest,
    /// How the buffer is taken back.
    pub release: Op,
    /// The reply to the request, once it has succeeded.
    pub reply: Option<UpcallArgs>,
}

/// A request of the log that shares no buffer.
pub open spec fn plain_request(driver_num: u32, subscribe_num: u32, cmd: u32) -> BlockingRequest {
    BlockingRequest { driver_num, subscribe_num, ro: None, rw: None, cmd, arg1: 0, arg2: 0 }
}

impl Default for LoggingSyscall {
    fn default() -> (log: LoggingSyscall)
        ensures
            log.driver_num == DRIVER_NUM_LOGGING_FLASH,
    {
        LoggingSyscall::new()
    }
}

impl LoggingSyscall {
    /// The log behind its driver number.
    pub fn new() -> (log: LoggingSyscall)
        ensures
            log.driver_num == DRIVER_NUM_LOGGING_FLASH,
    {
        LoggingSyscall { driver_num: DRIVER_NUM_LOGGING_FLASH }
    }

    /// Asks whether the driver exists.
    pub fn driver_exists(&self) -> (op: Op)
        ensures
            op == kernel::unit_command(self.driver_num, CMD_EXISTS, 0, 0),
    {
        Op::Command {
            command: Command {
                driver_num: self.driver_num,
                command_num: CMD_EXISTS,
                arg0: 0,
                arg1: 0,
            },
            expect: Expect::Unit,
        }
    }

    /// Asks for the capacity in bytes. The reply is read by
    /// [`kernel::size_reply`].
    pub fn get_capacity(&self) -> (op: Op)
        ensures
            op == kernel::word_command(self.driver_num, CMD_GET_CAP, 0, 0),
    {
        Op::Command {
            command: Command {
                driver_num: self.driver_num,
                command_num: CMD_GET_CAP,
                arg0: 0,
                arg1: 0,
            },
            expect: Expect::Word,
        }
    }

    /// Appends an entry of `entry_len` bytes. What it ends with is read by
    /// [`kernel::unit_reply`].
    pub fn append_entry(&self, entry_len: usize) -> (call: LogCall)
        ensures
            call == (LogCall {
                request: BlockingRequest {
                    driver_num: self.driver_num,
                    subscribe_num: SUBSCRIBE_APPEND_DONE,
                    ro: Some(
                        Share {
                            buffer_num: RO_ALLOW_APPEND,
                            region: Region { start: 0, len: entry_len },
                        },
                    ),
                    rw: None,
                    cmd: CMD_APPEND,
                    arg1: entry_len as u32,
                    arg2: 0,
                },
                release: Op::UnallowRo {
                    driver_num: self.driver_num,
                    buffer_num: RO_ALLOW_APPEND,
                },
                reply: None,
            }),
    {
        LogCall {
            request: subscribe_allow_ro_and_wait(
                self.driver_num,
                SUBSCRIBE_APPEND_DONE,
                RO_ALLOW_APPEND,
                Region { start: 0, len: entry_len },
                CMD_APPEND,
                entry_len as u32,
                0,
            ),
            release: Op::UnallowRo { driver_num: self.driver_num, buffer_num: RO_ALLOW_APPEND },
            reply: None,
        }
    }

    /// Reads an entry into a buffer of `buffer_len` bytes. What it ends with
    /// is read by [`kernel::size_reply`]: the number of bytes read.
    pub fn read_entry(&self, buffer_len: usize) -> (call: LogCall)
        ensures
            call == (LogCall {
                request: BlockingRequest {
                    driver_num: self.driver_num,
                    subscribe_num: SUBSCRIBE_READ_DONE,
                    ro: None,
                    rw: Some(
                        Share {
                            buffer_num: RW_ALLOW_READ,
                            region: Region { start: 0, len: buffer_len },
                        },
                    ),
                    cmd: CMD_READ,
                    arg1: buffer_len as u32,
                    arg2: 0,
                },
                release: Op::UnallowRw {
                    driver_num: self.driver_num,
                    buffer_num: RW_ALLOW_READ,
                },
                reply: None,
            }),
    {
        LogCall {
            request: subscribe_allow_rw_and_wait(
                self.driver_num,
                SUBSCRIBE_READ_DONE,
                RW_ALLOW_READ,
                Region { start: 0, len: buffer_len },
                CMD_READ,
                buffer_len as u32,
                0,
            ),
            release: Op::UnallowRw { driver_num: self.driver_num, buffer_num: RW_ALLOW_READ },
            reply: None,
        }
    }

    /// Writes the log out.
    pub fn sync(&self) -> (op: Op)
        ensures
            op == Op::Blocking(plain_request(self.driver_num, SUBSCRIBE_SYNC_DONE, CMD_SYNC)),
    {
        Op::Blocking(subscribe_and_wait(self.driver_num, SUBSCRIBE_SYNC_DONE, CMD_SYNC, 0, 0))
    }

    /// Clears the log.
    pub fn clear(&self) -> (op: Op)
        ensures
            op == Op::Blocking(plain_request(self.driver_num, SUBSCRIBE_ERASE_DONE, CMD_ERASE)),
    {
        Op::Blocking(subscribe_and_wait(self.driver_num, SUBSCRIBE_ERASE_DONE, CMD_ERASE, 0, 0))
    }

    /// Moves the read position to the beginning of the log.
    pub fn seek_beginning(&self) -> (op: Op)
        ensures
            op == Op::Blocking(plain_request(self.driver_num, SUBSCRIBE_SEEK_DONE, CMD_SEEK)),
    {
        Op::Blocking(subscribe_and_wait(self.driver_num, SUBSCRIBE_SEEK_DONE, CMD_SEEK, 0, 0))
    }
}

impl Machine for LogCall {
    type Ask = Op;

    type Answer = Reply;

    type Out = Reply;

    open spec fn wf(self) -> bool {
        true
    }

    open spec fn question(self) -> Op {
        if self.reply is None {
            Op::Blocking(self.request)
        } else {
            self.release
        }
    }

    open spec fn accepts(self, answer: Reply) -> bool {
        true
    }

    open spec fn after(self, answer: Reply) -> Progress<LogCall, Reply> {
        match (self.reply, answer) {
            (Some(args), _) => Progress::Done(Ok(args)),
            (None, Ok(args)) => Progress::Pending(LogCall { reply: Some(args), ..self }),
            (None, Err(e)) => Progress::Done(Err(e)),
        }
    }

    proof fn after_is_wf(self, answer: Reply) {
    }

    fn ask(&self) -> (asked: Op) {
        if self.reply.is_none() {
            Op::Blocking(self.request)
        } else {
            self.release
        }
    }

    fn resume(self, answer: Reply) -> (next: Progress<LogCall, Reply>) {
        match self.reply {
            Some(args) => Progress::Done(Ok(args)),
            None => match answer {
                Ok(args) => Progress::Pending(
                    LogCall { request: self.request, release: self.release, reply: Some(args) },
                ),
                Err(e) => Progress::Done(Err(e)),
            },
        }
    }
}

/// A call that succeeds has taken its buffer back, and ends with what the
/// request was answered; one that fails leaves the buffer shared, and ends
/// with the error.
pub proof fn law_log_call(call: LogCall, first: Reply, second: Reply)
    requires
        call.reply is None,
    ensures
        machine::answered(Progress::Pending(call), seq![first]),
        machine::run(Progress::Pending(call), seq![first]) == match first {
            Err(e) => Progress::<LogCall, Reply>::Done(Err(e)),
            Ok(args) => Progress::Pending(LogCall { reply: Some(args), ..call }),
        },
        first is Ok ==> {
            &&& machine::answered(Progress::Pending(call), seq![first, second])
            &&& machine::run(Progress::Pending(call), seq![first, second]) == Progress::<
                LogCall,
                Reply,
            >::Done(first)
            &&& machine::asked(Progress::Pending(call), seq![first, second]) == seq![
                Op::Blocking(call.request),
                call.release,
            ]
        },
{
    let p = Progress::Pending(call);
    reveal_with_fuel(machine::run, 3);
    reveal_with_fuel(machine::answered, 3);
    reveal_with_fuel(machine::asked, 3);
    assert(seq![first].drop_last() =~= Seq::<Reply>::empty());
    assert(seq![first, second].drop_last() =~= seq![first]);
    if first is Ok {
        assert(machine::asked::<LogCall>(p, seq![first, second]) =~= seq![
            Op::Blocking(call.request),
            call.release,
        ]);
    }
}

/// A request that shares no buffer carries nothing but its command.
pub proof fn law_plain_request(driver_num: u32, subscribe_num: u32, cmd: u32)
    ensures
        ({
            let request = plain_request(driver_num, subscribe_num, cmd);
            &&& request.driver_num == driver_num
            &&& request.subscribe_num == subscribe_num
            &&& request.cmd == cmd
            &&& request.arg1 == 0 && request.arg2 == 0
            &&& request.ro is None && request.rw is None
        }),
{
}

/// The numbers of the driver.
pub proof fn law_logging_numbers()
    ensures
        DRIVER_NUM_LOGGING_FLASH == 0x9001_0000,
        SUBSCRIBE_READ_DONE == 0 && SUBSCRIBE_SEEK_DONE == 1 && SUBSCRIBE_APPEND_DONE == 2
            && SUBSCRIBE_SYNC_DONE == 3 && SUBSCRIBE_ERASE_DONE == 4,
        RO_ALLOW_APPEND == 0 && RW_ALLOW_READ == 0,
        CMD_EXISTS == 0 && CMD_READ == 1 && CMD_APPEND == 2 && CMD_SEEK == 3 && CMD_SYNC == 4
            && CMD_ERASE == 5 && CMD_GET_CAP == 6,
{
}

} // verus!
