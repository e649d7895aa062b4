//! What userspace can ask of the kernel.

use vstd::prelude::*;

use crate::error::ErrorCode;

verus! {

/// A part of a buffer of the caller: `len` bytes from `start` on.
#[derive(Copy, Clone, Debug, PartialEq, Eq, Structural)]
pub struct Region {
    pub start: usize,
    pub len: usize,
}

/// A buffer region shared with a driver under a buffer number.
#[derive(Copy, Clone, Debug, PartialEq, Eq, Structural)]
pub struct Share {
    pub buffer_num: u32,
    pub region: Region,
}

/// A command to a driver.
#[derive(Copy, Clone, Debug, PartialEq, Eq, Structural)]
pub struct Command {
    pub driver_num: u32,
    pub command_num: u32,
    pub arg0: u32,
    pub arg1: u32,
}

/// The three arguments of an upcall.
pub type UpcallArgs = (u32, u32, u32);

/// One raw system call.
#[derive(Copy, Clone, Debug, PartialEq, Eq, Structural)]
pub enum Syscall {
    /// Share a read-only buffer.
    AllowRo { driver_num: u32, share: Share },
    /// Share a read-write buffer.
    AllowRw { driver_num: u32, share: Share },
    /// Register the completion upcall.
    Subscribe { driver_num: u32, subscribe_num: u32 },
    /// Issue a command.
    Command(Command),
    /// Give up the processor until an upcall has run.
    YieldWait,
}

/// The return variants of the allow and subscribe calls that are told apart.
#[derive(Copy, Clone, Debug, PartialEq, Eq, Structural)]
pub enum ReturnVariant {
    /// Success with two words.
    Success2U32,
    /// Failure with two words; the first is the error code.
    Failure2U32,
    /// Any other variant.
    Other,
}

/// What the kernel answers to a raw system call.
#[derive(Copy, Clone, Debug, PartialEq, Eq)]
pub enum KernelReply {
    /// Answer to an allow or a subscribe call: the return variant, and the
    /// error code that the next register holds, if it holds one.
    Registers { variant: ReturnVariant, error: Option<ErrorCode> },
    /// Answer to a command.
    Command(Result<(), ErrorCode>),
    /// The process runs again; the arguments of the upcall that ran, if the
    /// one that was subscribed did.
    Yielded(Option<UpcallArgs>),
}

/// How the return value of a command is read.
#[derive(Copy, Clone, Debug, PartialEq, Eq, Structural)]
pub enum Expect {
    /// Success without a value.
    Unit,
    /// Success with one word.
    Word,
    /// Success of any kind.
    Success,
}

/// A command that completes through an upcall.
#[derive(Copy, Clone, Debug, PartialEq, Eq)]
pub struct BlockingRequest {
    pub driver_num: u32,
    pub subscribe_num: u32,
    /// The read-only buffer to share first, if any.
    pub ro: Option<Share>,
    /// The read-write buffer to share next, if any.
    pub rw: Option<Share>,
    pub cmd: u32,
    pub arg1: u32,
    pub arg2: u32,
}

/// What a driver asks for.
#[derive(Copy, Clone, Debug, PartialEq, Eq)]
pub enum Op {
    /// Issue a command and read its return value.
    Command { command: Command, expect: Expect },
    /// Issue a command and wait for its upcall.
    Blocking(BlockingRequest),
    /// Take a read-only buffer back.
    UnallowRo { driver_num: u32, buffer_num: u32 },
    /// Take a read-write buffer back.
    UnallowRw { driver_num: u32, buffer_num: u32 },
}

/// What a driver is answered: the words that came with the success (a command
/// that returns one word has it first), or the error code.
pub type Reply = Result<UpcallArgs, ErrorCode>;

/// The command with the given parts whose return value carries nothing.
pub open spec fn unit_command(driver_num: u32, command_num: u32, arg0: u32, arg1: u32) -> Op {
    Op::Command {
        command: Command { driver_num, command_num, arg0, arg1 },
        expect: Expect::Unit,
    }
}

/// The command with the given parts whose return value is one word.
pub open spec fn word_command(driver_num: u32, command_num: u32, arg0: u32, arg1: u32) -> Op {
    Op::Command {
        command: Command { driver_num, command_num, arg0, arg1 },
        expect: Expect::Word,
    }
}

/// A reply of which only success or failure matters.
pub open spec fn unit_of(reply: Reply) -> Result<(), ErrorCode> {
    match reply {
        Ok(_) => Ok(()),
        Err(e) => Err(e),
    }
}

/// A reply whose first word is a size.
pub open spec fn size_of_reply(reply: Reply) -> Result<usize, ErrorCode> {
    match reply {
        Ok(args) => Ok(args.0 as usize),
        Err(e) => Err(e),
    }
}

/// Keeps of a reply whether it succeeded.
pub fn unit_reply(reply: Reply) -> (r: Result<(), ErrorCode>)
    ensures
        r == unit_of(reply),
{
    match reply {
        Ok(_) => Ok(()),
        Err(e) => Err(e),
    }
}

/// Keeps of a reply its first word, as a size.
pub fn size_reply(reply: Reply) -> (r: Result<usize, ErrorCode>)
    ensures
        r == size_of_reply(reply),
{
    match reply {
        Ok(args) => Ok(args.0 as usize),
        Err(e) => Err(e),
    }
}

/// A command carries its four words unchanged, and a command for a word differs
/// from one without a value only in what is expected back.
pub proof fn law_commands_carry_their_words(
    driver_num: u32,
    command_num: u32,
    arg0: u32,
    arg1: u32,
)
    ensures
        unit_command(driver_num, command_num, arg0, arg1) matches Op::Command { command, expect }
            && command.driver_num == driver_num && command.command_num == command_num
            && command.arg0 == arg0 && command.arg1 == arg1 && expect is Unit,
        word_command(driver_num, command_num, arg0, arg1) matches Op::Command { command, expect }
            && command.driver_num == driver_num && command.command_num == command_num
            && command.arg0 == arg0 && command.arg1 == arg1 && expect is Word,
{
}

/// A reply is read as a success exactly if it is one; an error is passed on as
/// it is, and a size is the first word.
pub proof fn law_replies_are_read(reply: Reply)
    ensures
        unit_of(reply) is Ok <==> reply is Ok,
        size_of_reply(reply) is Ok <==> reply is Ok,
        reply matches Ok(args) ==> size_of_reply(reply)->Ok_0 == args.0,
        reply matches Err(e) ==> unit_of(reply)->Err_0 == e && size_of_reply(reply)->Err_0 == e,
{
}

} // verus!
