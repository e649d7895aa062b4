//! The tasks that respond to attestation requests.

use vstd::prelude::*;

use crate::error::ErrorCode;
use crate::machine;
use crate::machine::{Machine, Progress};
use crate::spdm::transport::TransportError;

verus! {

/// The time that cryptographic operations may take, as a power of two of
/// microseconds.
pub const CALIPTRA_SPDM_CT_EXPONENT: u8 = 20;

/// The vendor whose PCI protocols are handled.
pub const PCI_SIG_VENDOR_ID: u16 = 0x0001;

/// A version of the protocol.
#[derive(Copy, Clone, Debug, PartialEq, Eq, Structural)]
pub enum SpdmVersion {
    V12,
    V13,
}

/// The versions that are supported.
pub fn spdm_versions() -> (versions: [SpdmVersion; 2])
    ensures
        versions@ == seq![SpdmVersion::V12, SpdmVersion::V13],
{
    [SpdmVersion::V12, SpdmVersion::V13]
}

/// The versions that are supported for secured messages.
pub fn secure_spdm_versions() -> (versions: [SpdmVersion; 1])
    ensures
        versions@ == seq![SpdmVersion::V12],
{
    [SpdmVersion::V12]
}

/// The capabilities that are switched on besides those that always are.
#[derive(Copy, Clone, Debug, PartialEq, Eq, Structural)]
pub struct CapabilityFlags {
    pub key_ex_cap: bool,
    pub mac_cap: bool,
    pub encrypt_cap: bool,
}

/// What a responder tells of itself.
#[derive(Copy, Clone, Debug, PartialEq, Eq, Structural)]
pub struct DeviceCapabilities {
    pub ct_exponent: u8,
    pub flags: CapabilityFlags,
    /// The largest message that fits in one transfer.
    pub data_transfer_size: u32,
    /// The largest message.
    pub max_spdm_msg_size: u32,
}

/// The algorithms that are offered besides those that always are.
#[derive(Copy, Clone, Debug, PartialEq, Eq, Structural)]
pub struct DeviceAlgorithms {
    pub dhe_group: bool,
    pub aead_cipher_suite: bool,
    pub spdm_key_schedule: bool,
    pub other_param_support: bool,
}

/// The form of the measurements.
#[derive(Copy, Clone, Debug, PartialEq, Eq, Structural)]
pub enum MeasurementFormat {
    OcpEat,
    PcrQuote,
}

/// Who handles vendor-defined requests.
#[derive(Copy, Clone, Debug, PartialEq, Eq, Structural)]
pub enum VdmHandlers {
    Nobody,
    /// The handler of the device's own commands.
    Caliptra,
    /// The handler of the PCI protocols, for a vendor.
    PciSig { vendor_id: u16 },
}

/// What a responder is made with.
#[derive(Copy, Clone, Debug, PartialEq, Eq, Structural)]
pub struct ResponderConfig {
    pub capabilities: DeviceCapabilities,
    pub algorithms: DeviceAlgorithms,
    pub measurements: MeasurementFormat,
    pub vdm_handlers: VdmHandlers,
}

/// The sizes that a responder works with.
#[derive(Copy, Clone, Debug, PartialEq, Eq, Structural)]
pub struct ResponderSizes {
    /// The size of its buffer.
    pub buf_size: usize,
    /// The size of what the transport puts in front of a message.
    pub header_size: usize,
    /// The size of the buffer for large messages.
    pub large_msg_buf_size: usize,
}

/// The capabilities of a responder.
pub open spec fn capabilities(sizes: ResponderSizes, flags: CapabilityFlags) -> DeviceCapabilities {
    DeviceCapabilities {
        ct_exponent: CALIPTRA_SPDM_CT_EXPONENT,
        flags,
        data_transfer_size: (sizes.buf_size - sizes.header_size) as u32,
        max_spdm_msg_size: sizes.large_msg_buf_size as u32,
    }
}

fn local_capabilities(sizes: ResponderSizes, flags: CapabilityFlags) -> (c: DeviceCapabilities)
    requires
        sizes.header_size <= sizes.buf_size,
    ensures
        c == capabilities(sizes, flags),
{
    DeviceCapabilities {
        ct_exponent: CALIPTRA_SPDM_CT_EXPONENT,
        flags,
        data_transfer_size: (sizes.buf_size - sizes.header_size) as u32,
        max_spdm_msg_size: sizes.large_msg_buf_size as u32,
    }
}

/// The form of the measurements: evidence unless quotes are chosen.
pub open spec fn measurement_format_spec(pcr_quote: bool) -> MeasurementFormat {
    if pcr_quote {
        MeasurementFormat::PcrQuote
    } else {
        MeasurementFormat::OcpEat
    }
}

fn measurement_format(pcr_quote: bool) -> (format: MeasurementFormat)
    ensures
        format == measurement_format_spec(pcr_quote),
{
    if pcr_quote {
        MeasurementFormat::PcrQuote
    } else {
        MeasurementFormat::OcpEat
    }
}

/// What the responder over MCTP is made with.
pub open spec fn mctp_config_spec(sizes: ResponderSizes, pcr_quote: bool) -> ResponderConfig {
    ResponderConfig {
        capabilities: capabilities(
            sizes,
            CapabilityFlags { key_ex_cap: false, mac_cap: false, encrypt_cap: false },
        ),
        algorithms: DeviceAlgorithms {
            dhe_group: false,
            aead_cipher_suite: false,
            spdm_key_schedule: false,
            other_param_support: false,
        },
        measurements: measurement_format_spec(pcr_quote),
        vdm_handlers: VdmHandlers::Caliptra,
    }
}

/// What the responder over MCTP is made with.
pub fn mctp_config(sizes: ResponderSizes, pcr_quote: bool) -> (config: ResponderConfig)
    requires
        sizes.header_size <= sizes.buf_size,
    ensures
        config == mctp_config_spec(sizes, pcr_quote),
{
    ResponderConfig {
        capabilities: local_capabilities(
            sizes,
            CapabilityFlags { key_ex_cap: false, mac_cap: false, encrypt_cap: false },
        ),
        algorithms: DeviceAlgorithms {
            dhe_group: false,
            aead_cipher_suite: false,
            spdm_key_schedule: false,
            other_param_support: false,
        },
        measurements: measurement_format(pcr_quote),
        vdm_handlers: VdmHandlers::Caliptra,
    }
}

/// What the responder over DOE is made with. Only it secures messages.
pub open spec fn doe_config_spec(
    sizes: ResponderSizes,
    pcr_quote: bool,
    pci_sig: bool,
) -> ResponderConfig {
    ResponderConfig {
        capabilities: capabilities(
            sizes,
            CapabilityFlags { key_ex_cap: true, mac_cap: true, encrypt_cap: true },
        ),
        algorithms: DeviceAlgorithms {
            dhe_group: true,
            aead_cipher_suite: true,
            spdm_key_schedule: true,
            other_param_support: true,
        },
        measurements: measurement_format_spec(pcr_quote),
        vdm_handlers: if pci_sig {
            VdmHandlers::PciSig { vendor_id: PCI_SIG_VENDOR_ID }
        } else {
            VdmHandlers::Nobody
        },
    }
}

/// What the responder over DOE is made with. Only it secures messages.
pub fn doe_config(sizes: ResponderSizes, pcr_quote: bool, pci_sig: bool) -> (config:
    ResponderConfig)
    requires
        sizes.header_size <= sizes.buf_size,
    ensures
        config == doe_config_spec(sizes, pcr_quote, pci_sig),
{
    ResponderConfig {
        capabilities: local_capabilities(
            sizes,
            CapabilityFlags { key_ex_cap: true, mac_cap: true, encrypt_cap: true },
        ),
        algorithms: DeviceAlgorithms {
            dhe_group: true,
            aead_cipher_suite: true,
            spdm_key_schedule: true,
            other_param_support: true,
        },
        measurements: measurement_format(pcr_quote),
        vdm_handlers: if pci_sig {
            VdmHandlers::PciSig { vendor_id: PCI_SIG_VENDOR_ID }
        } else {
            VdmHandlers::Nobody
        },
    }
}

/// Which responder a task is.
#[derive(Copy, Clone, Debug, PartialEq, Eq, Structural)]
pub enum ResponderKind {
    /// It waits for each message over MCTP.
    Mctp,
    /// It waits for each message over DOE, and ends if there is no device.
    Doe,
    /// It looks for messages over MCTP, and lets others run in between. It
    /// never ends: if it cannot be set up, it still lets others run.
    Cooperative,
}

/// Why a message could not be processed.
#[derive(Debug, PartialEq, Eq)]
pub enum SpdmError {
    Transport(TransportError<()>),
    /// Another error.
    Other,
}

/// What a responder asks for.
#[derive(Copy, Clone, Debug, PartialEq, Eq, Structural)]
pub enum ResponderAsk {
    /// Make the buffer for large messages.
    InitLargeMsgBuf,
    /// Make the store of certificates.
    InitCertStore,
    /// Collect what the evidence says of the environment.
    InitTargetEnvClaims,
    /// Start to listen without waiting.
    SetupNonBlocking,
    /// Make the responder itself.
    CreateContext(ResponderConfig),
    /// Wait for a message and process it.
    ProcessMessage,
    /// Process a message if there is one.
    TryProcessMessage,
    /// Let the other services run.
    PollOthers,
    /// Wait until something happens.
    YieldWait,
}

/// What a responder is answered.
#[derive(Debug, PartialEq, Eq)]
pub enum ResponderAnswer {
    /// Whether it could be done.
    Tried { ok: bool },
    Processed(Result<(), SpdmError>),
    /// It is done.
    Done,
}

/// Why a responder has ended.
#[derive(Copy, Clone, Debug, PartialEq, Eq, Structural)]
pub enum ResponderEnd {
    /// The store of certificates could not be made.
    NoCertStore,
    /// The responder itself could not be made.
    NoContext,
    /// There is no device to talk to.
    NoDevice,
}

/// How far a responder has come.
#[derive(Copy, Clone, Debug, PartialEq, Eq, Structural)]
pub enum ResponderStep {
    LargeMsgBuf,
    CertStore,
    Claims,
    Setup,
    Context,
    Process,
    Poll,
    Yield,
    /// The others run, without a responder.
    IdlePoll,
    /// Something is waited for, without a responder.
    IdleYield,
}

/// A responder.
#[derive(Copy, Clone, Debug, PartialEq, Eq, Structural)]
pub struct Responder {
    pub kind: ResponderKind,
    pub config: ResponderConfig,
    pub step: ResponderStep,
}

/// Starts the task that responds over MCTP, from the things that it shares
/// with others on.
pub fn spdm_task(sizes: ResponderSizes, pcr_quote: bool) -> (r: Responder)
    requires
        sizes.header_size <= sizes.buf_size,
    ensures
        r == (Responder {
            kind: ResponderKind::Mctp,
            config: mctp_config_spec(sizes, pcr_quote),
            step: ResponderStep::LargeMsgBuf,
        }),
        r.wf(),
{
    Responder {
        kind: ResponderKind::Mctp,
        config: mctp_config(sizes, pcr_quote),
        step: ResponderStep::LargeMsgBuf,
    }
}

/// Starts the task that responds over MCTP and lets others run in between. It
/// never ends.
pub fn spdm_cooperative_main(sizes: ResponderSizes, pcr_quote: bool) -> (r: Responder)
    requires
        sizes.header_size <= sizes.buf_size,
    ensures
        r == (Responder {
            kind: ResponderKind::Cooperative,
            config: mctp_config_spec(sizes, pcr_quote),
            step: ResponderStep::LargeMsgBuf,
        }),
        r.wf(),
{
    Responder {
        kind: ResponderKind::Cooperative,
        config: mctp_config(sizes, pcr_quote),
        step: ResponderStep::LargeMsgBuf,
    }
}

/// Starts to respond over MCTP.
pub fn spdm_mctp_responder(sizes: ResponderSizes, pcr_quote: bool) -> (r: Responder)
    requires
        sizes.header_size <= sizes.buf_size,
    ensures
        r == (Responder {
            kind: ResponderKind::Mctp,
            config: mctp_config_spec(sizes, pcr_quote),
            step: ResponderStep::Context,
        }),
        r.wf(),
{
    Responder {
        kind: ResponderKind::Mctp,
        config: mctp_config(sizes, pcr_quote),
        step: ResponderStep::Context,
    }
}

/// Starts to respond over DOE.
pub fn spdm_doe_responder(sizes: ResponderSizes, pcr_quote: bool, pci_sig: bool) -> (r: Responder)
    requires
        sizes.header_size <= sizes.buf_size,
    ensures
        r == (Responder {
            kind: ResponderKind::Doe,
            config: doe_config_spec(sizes, pcr_quote, pci_sig),
            step: ResponderStep::Context,
        }),
        r.wf(),
{
    Responder {
        kind: ResponderKind::Doe,
        config: doe_config(sizes, pcr_quote, pci_sig),
        step: ResponderStep::Context,
    }
}

/// Whether a message could not be processed because there is no device.
pub open spec fn is_no_device(answer: ResponderAnswer) -> bool {
    answer matches ResponderAnswer::Processed(r) && r matches Err(e) && e
        == SpdmError::Transport(TransportError::DriverError(ErrorCode::NoDevice))
}

fn tells_no_device(answer: &ResponderAnswer) -> (r: bool)
    ensures
        r == is_no_device(*answer),
{
    matches!(
        answer,
        ResponderAnswer::Processed(
            Err(SpdmError::Transport(TransportError::DriverError(ErrorCode::NoDevice))),
        )
    )
}

impl Responder {
    /// The step once the store of certificates is there.
    pub open spec fn after_cert_store(self) -> ResponderStep {
        if self.config.measurements is OcpEat {
            ResponderStep::Claims
        } else {
            self.after_claims()
        }
    }

    /// The step once the claims are collected, or need not be.
    pub open spec fn after_claims(self) -> ResponderStep {
        if self.kind is Cooperative {
            ResponderStep::Setup
        } else {
            ResponderStep::Context
        }
    }

    /// Where a responder stands whose setup has failed: it has ended, unless
    /// others depend on it to let them run.
    pub open spec fn given_up(self, end: ResponderEnd) -> Progress<Responder, ResponderEnd> {
        if self.kind is Cooperative {
            Progress::Pending(Responder { step: ResponderStep::IdlePoll, ..self })
        } else {
            Progress::Done(end)
        }
    }

    fn give_up(self, end: ResponderEnd) -> (next: Progress<Responder, ResponderEnd>)
        ensures
            next == self.given_up(end),
    {
        match self.kind {
            ResponderKind::Cooperative => {
                let mut next = self;
                next.step = ResponderStep::IdlePoll;
                Progress::Pending(next)
            },
            _ => Progress::Done(end),
        }
    }

    fn step_after_claims(&self) -> (step: ResponderStep)
        ensures
            step == self.after_claims(),
    {
        match self.kind {
            ResponderKind::Cooperative => ResponderStep::Setup,
            _ => ResponderStep::Context,
        }
    }
}

impl Machine for Responder {
    type Ask = ResponderAsk;

    type Answer = ResponderAnswer;

    type Out = ResponderEnd;

    open spec fn wf(self) -> bool {
        match self.step {
            ResponderStep::Setup => self.kind is Cooperative,
            ResponderStep::Poll => self.kind is Cooperative,
            ResponderStep::Yield => self.kind is Cooperative,
            ResponderStep::IdlePoll => self.kind is Cooperative,
            ResponderStep::IdleYield => self.kind is Cooperative,
            _ => true,
        }
    }

    open spec fn question(self) -> ResponderAsk {
        match self.step {
            ResponderStep::LargeMsgBuf => ResponderAsk::InitLargeMsgBuf,
            ResponderStep::CertStore => ResponderAsk::InitCertStore,
            ResponderStep::Claims => ResponderAsk::InitTargetEnvClaims,
            ResponderStep::Setup => ResponderAsk::SetupNonBlocking,
            ResponderStep::Context => ResponderAsk::CreateContext(self.config),
            ResponderStep::Process => if self.kind is Cooperative {
                ResponderAsk::TryProcessMessage
            } else {
                ResponderAsk::ProcessMessage
            },
            ResponderStep::Poll => ResponderAsk::PollOthers,
            ResponderStep::Yield => ResponderAsk::YieldWait,
            ResponderStep::IdlePoll => ResponderAsk::PollOthers,
            ResponderStep::IdleYield => ResponderAsk::YieldWait,
        }
    }

    open spec fn accepts(self, answer: ResponderAnswer) -> bool {
        match self.step {
            ResponderStep::LargeMsgBuf => answer is Done,
            ResponderStep::CertStore => answer is Tried,
            ResponderStep::Claims => answer is Done,
            ResponderStep::Setup => answer is Tried,
            ResponderStep::Context => answer is Tried,
            ResponderStep::Process => answer is Processed,
            ResponderStep::Poll => answer is Done,
            ResponderStep::Yield => answer is Done,
            ResponderStep::IdlePoll => answer is Done,
            ResponderStep::IdleYield => answer is Done,
        }
    }

    open spec fn after(self, answer: ResponderAnswer) -> Progress<Responder, ResponderEnd> {
        let failed = answer == ResponderAnswer::Tried { ok: false };
        match self.step {
            ResponderStep::LargeMsgBuf => Progress::Pending(
                Responder { step: ResponderStep::CertStore, ..self },
            ),
            ResponderStep::CertStore => if failed {
                self.given_up(ResponderEnd::NoCertStore)
            } else {
                Progress::Pending(Responder { step: self.after_cert_store(), ..self })
            },
            ResponderStep::Claims => Progress::Pending(
                Responder { step: self.after_claims(), ..self },
            ),
            ResponderStep::Setup => if failed {
                Progress::Pending(Responder { step: ResponderStep::IdlePoll, ..self })
            } else {
                Progress::Pending(Responder { step: ResponderStep::Context, ..self })
            },
            ResponderStep::Context => if failed {
                self.given_up(ResponderEnd::NoContext)
            } else {
                Progress::Pending(Responder { step: ResponderStep::Process, ..self })
            },
            ResponderStep::Process => match self.kind {
                ResponderKind::Mctp => Progress::Pending(self),
                ResponderKind::Doe => if is_no_device(answer) {
                    Progress::Done(ResponderEnd::NoDevice)
                } else {
                    Progress::Pending(self)
                },
                ResponderKind::Cooperative => Progress::Pending(
                    Responder { step: ResponderStep::Poll, ..self },
                ),
            },
            ResponderStep::Poll => Progress::Pending(
                Responder { step: ResponderStep::Yield, ..self },
            ),
            ResponderStep::Yield => Progress::Pending(
                Responder { step: ResponderStep::Process, ..self },
            ),
            ResponderStep::IdlePoll => Progress::Pending(
                Responder { step: ResponderStep::IdleYield, ..self },
            ),
            ResponderStep::IdleYield => Progress::Pending(
                Responder { step: ResponderStep::IdlePoll, ..self },
            ),
        }
    }

    proof fn after_is_wf(self, answer: ResponderAnswer) {
    }

    fn ask(&self) -> (asked: ResponderAsk) {
        match self.step {
            ResponderStep::LargeMsgBuf => ResponderAsk::InitLargeMsgBuf,
            ResponderStep::CertStore => ResponderAsk::InitCertStore,
            ResponderStep::Claims => ResponderAsk::InitTargetEnvClaims,
            ResponderStep::Setup => ResponderAsk::SetupNonBlocking,
            ResponderStep::Context => ResponderAsk::CreateContext(self.config),
            ResponderStep::Process => match self.kind {
                ResponderKind::Cooperative => ResponderAsk::TryProcessMessage,
                _ => ResponderAsk::ProcessMessage,
            },
            ResponderStep::Poll => ResponderAsk::PollOthers,
            ResponderStep::Yield => ResponderAsk::YieldWait,
            ResponderStep::IdlePoll => ResponderAsk::PollOthers,
            ResponderStep::IdleYield => ResponderAsk::YieldWait,
        }
    }

    fn resume(self, answer: ResponderAnswer) -> (next: Progress<Responder, ResponderEnd>) {
        let failed = matches!(answer, ResponderAnswer::Tried { ok: false });
        let mut next = self;
        match self.step {
            ResponderStep::LargeMsgBuf => {
                next.step = ResponderStep::CertStore;
            },
            ResponderStep::CertStore => {
                if failed {
                    return self.give_up(ResponderEnd::NoCertStore);
                }
                next.step = match self.config.measurements {
                    MeasurementFormat::OcpEat => ResponderStep::Claims,
                    MeasurementFormat::PcrQuote => self.step_after_claims(),
                };
            },
            ResponderStep::Claims => {
                next.step = self.step_after_claims();
            },
            ResponderStep::Setup => {
                next.step = if failed {
                    ResponderStep::IdlePoll
                } else {
                    ResponderStep::Context
                };
            },
            ResponderStep::Context => {
                if failed {
                    return self.give_up(ResponderEnd::NoContext);
                }
                next.step = ResponderStep::Process;
            },
            ResponderStep::Process => match self.kind {
                ResponderKind::Mctp => {},
                ResponderKind::Doe => {
                    if tells_no_device(&answer) {
                        return Progress::Done(ResponderEnd::NoDevice);
                    }
                },
                ResponderKind::Cooperative => {
                    next.step = ResponderStep::Poll;
                },
            },
            ResponderStep::Poll => {
                next.step = ResponderStep::Yield;
            },
            ResponderStep::Yield => {
                next.step = ResponderStep::Process;
            },
            ResponderStep::IdlePoll => {
                next.step = ResponderStep::IdleYield;
            },
            ResponderStep::IdleYield => {
                next.step = ResponderStep::IdlePoll;
            },
        }
        Progress::Pending(next)
    }
}

/// A responder that has been made goes on for ever, whatever becomes of the
/// messages, but for the one over DOE: it ends exactly when it is told that
/// there is no device.
pub proof fn law_responder_goes_on(m: Responder, answer: ResponderAnswer)
    requires
        m.wf(),
        m.accepts(answer),
        m.step is Process || m.step is Poll || m.step is Yield,
    ensures
        match m.after(answer) {
            Progress::Done(end) => {
                &&& m.kind is Doe
                &&& is_no_device(answer)
                &&& end == ResponderEnd::NoDevice
            },
            Progress::Pending(next) => {
                &&& next.step is Process || next.step is Poll || next.step is Yield
                &&& !(m.kind is Doe && is_no_device(answer))
            },
        },
{
}

/// The cooperative responder never ends, whatever it is answered.
pub proof fn law_cooperative_never_ends(start: Responder, answers: Seq<ResponderAnswer>)
    requires
        start.wf(),
        start.kind is Cooperative,
        machine::answered(Progress::Pending(start), answers),
    ensures
        ({
            &&& machine::run(Progress::Pending(start), answers) matches Progress::Pending(m)
            &&& m.wf()
            &&& m.kind is Cooperative
            &&& m.config == start.config
        }),
    decreases answers.len(),
{
    if answers.len() > 0 {
        law_cooperative_never_ends(start, answers.drop_last());
    }
}

/// A cooperative responder whose setup has failed lets the others run and
/// waits, over and over, and looks for no message.
pub proof fn law_cooperative_idles(start: Responder, answers: Seq<ResponderAnswer>)
    requires
        start.step is IdlePoll,
        machine::answered(Progress::Pending(start), answers),
    ensures
        machine::asked(Progress::Pending(start), answers) == Seq::new(
            answers.len(),
            |i: int|
                if i % 2 == 0 {
                    ResponderAsk::PollOthers
                } else {
                    ResponderAsk::YieldWait
                },
        ),
        machine::run(Progress::Pending(start), answers) == Progress::<
            Responder,
            ResponderEnd,
        >::Pending(
            Responder {
                step: if answers.len() % 2 == 0 {
                    ResponderStep::IdlePoll
                } else {
                    ResponderStep::IdleYield
                },
                ..start
            },
        ),
    decreases answers.len(),
{
    if answers.len() > 0 {
        law_cooperative_idles(start, answers.drop_last());
    }
}

/// A failure in the setup of a cooperative responder leaves it idling.
pub proof fn law_cooperative_survives_setup(m: Responder)
    requires
        m.wf(),
        m.kind is Cooperative,
        m.step is CertStore || m.step is Setup || m.step is Context,
    ensures
        ({
            let failed = ResponderAnswer::Tried { ok: false };
            &&& m.accepts(failed)
            &&& m.after(failed) == Progress::<Responder, ResponderEnd>::Pending(
                Responder { step: ResponderStep::IdlePoll, ..m },
            )
        }),
{
}

/// What is asked for before a responder is made, in order.
pub open spec fn responder_setup(start: Responder) -> Seq<ResponderAsk> {
    let shared = seq![ResponderAsk::InitLargeMsgBuf, ResponderAsk::InitCertStore];
    let claims = if start.config.measurements is OcpEat {
        shared.push(ResponderAsk::InitTargetEnvClaims)
    } else {
        shared
    };
    let listening = if start.kind is Cooperative {
        claims.push(ResponderAsk::SetupNonBlocking)
    } else {
        claims
    };
    listening.push(ResponderAsk::CreateContext(start.config))
}

/// The answer that lets the setup go on.
pub open spec fn setup_answer(ask: ResponderAsk) -> ResponderAnswer {
    match ask {
        ResponderAsk::InitLargeMsgBuf => ResponderAnswer::Done,
        ResponderAsk::InitTargetEnvClaims => ResponderAnswer::Done,
        _ => ResponderAnswer::Tried { ok: true },
    }
}

/// A task that starts from what it shares with others makes that first, then
/// listens where it does so without waiting, and then makes the responder. If
/// all of it works out, it comes to its first message.
pub proof fn law_responder_setup(start: Responder)
    requires
        start.step is LargeMsgBuf,
    ensures
        ({
            let plan = responder_setup(start);
            let answers = plan.map_values(|ask: ResponderAsk| setup_answer(ask));
            &&& machine::answered(Progress::Pending(start), answers)
            &&& machine::asked(Progress::Pending(start), answers) == plan
            &&& machine::run(Progress::Pending(start), answers) == Progress::<
                Responder,
                ResponderEnd,
            >::Pending(Responder { step: ResponderStep::Process, ..start })
        }),
{
    let plan = responder_setup(start);
    let answers = plan.map_values(|ask: ResponderAsk| setup_answer(ask));
    let n = answers.len() as int;
    reveal_with_fuel(machine::run, 6);
    reveal_with_fuel(machine::answered, 6);
    reveal_with_fuel(machine::asked, 6);
    assert(answers.drop_last() =~= answers.take(n - 1));
    assert(answers.take(n - 1).drop_last() =~= answers.take(n - 2));
    assert(answers.take(n - 2).drop_last() =~= answers.take(n - 3));
    if n >= 4 {
        assert(answers.take(n - 3).drop_last() =~= answers.take(n - 4));
    }
    if n == 5 {
        assert(answers.take(n - 4).drop_last() =~= answers.take(n - 5));
    }
    assert(answers.take(0) =~= Seq::empty());
}

/// The cooperative responder looks for a message, lets the others run and
/// waits, over and over.
pub proof fn law_cooperative_iteration(config: ResponderConfig, processed: Result<(), SpdmError>)
    ensures
        ({
            let p = Progress::<Responder, ResponderEnd>::Pending(
                Responder {
                    kind: ResponderKind::Cooperative,
                    config,
                    step: ResponderStep::Process,
                },
            );
            let answers = seq![
                ResponderAnswer::Processed(processed),
                ResponderAnswer::Done,
                ResponderAnswer::Done,
            ];
            &&& machine::answered(p, answers)
            &&& machine::asked(p, answers) == seq![
                ResponderAsk::TryProcessMessage,
                ResponderAsk::PollOthers,
                ResponderAsk::YieldWait,
            ]
            &&& machine::run(p, answers) == p
        }),
{
    let answers = seq![
        ResponderAnswer::Processed(processed),
        ResponderAnswer::Done,
        ResponderAnswer::Done,
    ];
    reveal_with_fuel(machine::run, 4);
    reveal_with_fuel(machine::answered, 4);
    reveal_with_fuel(machine::asked, 4);
    assert(answers.drop_last() =~= answers.take(2));
    assert(answers.take(2).drop_last() =~= answers.take(1));
    assert(answers.take(1).drop_last() =~= Seq::empty());
}

/// What the responders tell of themselves. A message fits in one transfer if it
/// fits in the buffer behind the transport's header. Over MCTP nothing is
/// secured and the device's own commands are handled; over DOE messages are
/// secured, and the PCI protocols are handled if that is chosen. The
/// measurements are evidence unless quotes are chosen.
pub proof fn law_configs(sizes: ResponderSizes, pcr_quote: bool, pci_sig: bool)
    ensures
        ({
            let c = mctp_config_spec(sizes, pcr_quote);
            &&& c.capabilities.ct_exponent == 20
            &&& !c.capabilities.flags.key_ex_cap && !c.capabilities.flags.mac_cap
                && !c.capabilities.flags.encrypt_cap
            &&& c.capabilities.data_transfer_size == (sizes.buf_size - sizes.header_size) as u32
            &&& c.capabilities.max_spdm_msg_size == sizes.large_msg_buf_size as u32
            &&& !c.algorithms.dhe_group && !c.algorithms.aead_cipher_suite
                && !c.algorithms.spdm_key_schedule && !c.algorithms.other_param_support
            &&& c.measurements is PcrQuote <==> pcr_quote
            &&& c.vdm_handlers == VdmHandlers::Caliptra
        }),
        ({
            let c = doe_config_spec(sizes, pcr_quote, pci_sig);
            &&& c.capabilities.ct_exponent == 20
            &&& c.capabilities.flags.key_ex_cap && c.capabilities.flags.mac_cap
                && c.capabilities.flags.encrypt_cap
            &&& c.capabilities.data_transfer_size == (sizes.buf_size - sizes.header_size) as u32
            &&& c.capabilities.max_spdm_msg_size == sizes.large_msg_buf_size as u32
            &&& c.algorithms.dhe_group && c.algorithms.aead_cipher_suite
                && c.algorithms.spdm_key_schedule && c.algorithms.other_param_support
            &&& c.measurements is PcrQuote <==> pcr_quote
            &&& pci_sig ==> c.vdm_handlers == (VdmHandlers::PciSig { vendor_id: 1 })
            &&& !pci_sig ==> c.vdm_handlers == VdmHandlers::Nobody
        }),
{
}

/// What comes after each question of a responder. The claims are collected
/// exactly if the measurements are evidence. Only the cooperative responder
/// starts to listen without waiting, lets the others run, and goes on with that
/// alone if the setup fails; the others end then. Only the one over DOE ends
/// once it is made, and only if it is told that there is no device.
pub proof fn law_responder_steps(m: Responder, answer: ResponderAnswer)
    requires
        m.wf(),
        m.accepts(answer),
    ensures
        m.after(answer) matches Progress::Pending(next) ==> next.kind == m.kind && next.config
            == m.config,
        ({
            let next = m.after(answer)->Pending_0;
            let end = m.after(answer)->Done_0;
            let cooperative = m.kind is Cooperative;
            let made = if cooperative {
                next.question() is SetupNonBlocking
            } else {
                next.question() == ResponderAsk::CreateContext(m.config)
            };
            match (m.question(), answer) {
                (ResponderAsk::InitLargeMsgBuf, ResponderAnswer::Done) => {
                    &&& m.after(answer) is Pending
                    &&& next.question() is InitCertStore
                },
                (ResponderAsk::InitCertStore, ResponderAnswer::Tried { ok: true }) => {
                    &&& m.after(answer) is Pending
                    &&& m.config.measurements is OcpEat ==> next.question()
                        is InitTargetEnvClaims
                    &&& m.config.measurements is PcrQuote ==> made
                },
                (ResponderAsk::InitTargetEnvClaims, ResponderAnswer::Done) => {
                    &&& m.after(answer) is Pending
                    &&& made
                },
                (ResponderAsk::SetupNonBlocking, ResponderAnswer::Tried { ok: true }) => {
                    &&& m.after(answer) is Pending
                    &&& next.question() == ResponderAsk::CreateContext(m.config)
                },
                (ResponderAsk::CreateContext(config), ResponderAnswer::Tried { ok: true }) => {
                    &&& config == m.config
                    &&& m.after(answer) is Pending
                    &&& cooperative ==> next.question() is TryProcessMessage
                    &&& !cooperative ==> next.question() is ProcessMessage
                },
                (_, ResponderAnswer::Tried { ok: true }) => false,
                (ask, ResponderAnswer::Tried { ok: false }) => {
                    &&& cooperative ==> m.after(answer) is Pending && next.step is IdlePoll
                        && next.question() is PollOthers
                    &&& !cooperative ==> m.after(answer) is Done
                    &&& !cooperative && ask is InitCertStore ==> end == ResponderEnd::NoCertStore
                    &&& !cooperative && ask is CreateContext ==> end == ResponderEnd::NoContext
                },
                (ResponderAsk::ProcessMessage, ResponderAnswer::Processed(r)) => {
                    let gone = m.kind is Doe && r is Err && r->Err_0 is Transport
                        && r->Err_0->Transport_0 is DriverError
                        && r->Err_0->Transport_0->DriverError_0 == ErrorCode::NoDevice;
                    &&& !cooperative
                    &&& m.after(answer) is Done <==> gone
                    &&& gone ==> end == ResponderEnd::NoDevice
                    &&& !gone ==> next == m
                },
                (ResponderAsk::TryProcessMessage, ResponderAnswer::Processed(_)) => {
                    &&& cooperative
                    &&& m.after(answer) is Pending
                    &&& next.question() is PollOthers && next.step is Poll
                },
                (ResponderAsk::PollOthers, ResponderAnswer::Done) => {
                    &&& cooperative
                    &&& m.after(answer) is Pending
                    &&& next.question() is YieldWait
                    &&& next.step is Yield <==> m.step is Poll
                },
                (ResponderAsk::YieldWait, ResponderAnswer::Done) => {
                    &&& cooperative
                    &&& m.after(answer) is Pending
                    &&& next.question() is TryProcessMessage <==> m.step is Yield
                    &&& next.question() is PollOthers && next.step is IdlePoll <==> m.step
                        is IdleYield
                },
                _ => false,
            }
        }),
{
}

} // verus!
