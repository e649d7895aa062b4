//! Errors of the interface.

use vstd::prelude::*;

use crate::error::ErrorCode;
use crate::syscall::mailbox::MailboxError;

verus! {

/// What a call returns.
pub type CaliptraApiResult<T, E> = Result<T, CaliptraApiError<E>>;

/// Why a call has failed. `E` stands for the errors of the evidence format.
#[derive(PartialEq)]
pub enum CaliptraApiError<E> {
    MailboxBusy,
    Mailbox(MailboxError),
    Syscall(ErrorCode),
    InvalidArgument(&'static str),
    InvalidOperation(&'static str),
    AesGcmInvalidDataLength,
    AesGcmInvalidAadLength,
    AesGcmInvalidOperation,
    AesGcmInvalidContext,
    AesGcmTagVerifyFailed,
    AsymAlgoUnsupported,
    InvalidResponse,
    BufferTooSmall,
    UnprovisionedCsr,
    Eat(E),
}

impl<E> CaliptraApiError<E> {
    /// The text that stands for the error in messages.
    pub fn debug_text(&self) -> (text: &'static str)
        ensures
            text@ == "CaliptraApiError"@,
    {
        "CaliptraApiError"
    }
}

} // verus!
