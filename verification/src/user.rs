//! The user application: what it is built with, and what it does in which
//! order.

use vstd::prelude::*;

use crate::error::ErrorCode;
use crate::machine;
use crate::machine::{Machine, Progress};

verus! {

/// What the application is built with.
#[derive(Copy, Clone, Debug, PartialEq, Eq, Structural)]
pub struct Features {
    pub test_firmware_update_streaming: bool,
    pub test_firmware_update_flash: bool,
    pub test_mcu_mbox_cmds: bool,
    pub test_mcu_mbox_fips_self_test: bool,
    pub test_mcu_mbox_fips_periodic: bool,
    pub test_caliptra_util_host_validator: bool,
    pub test_mctp_vdm_cmds: bool,
    pub test_caliptra_util_host_mctp_vdm_validator: bool,
}

impl Features {
    /// Whether mailbox commands are served.
    pub open spec fn mbox_spec(self) -> bool {
        ||| self.test_mcu_mbox_cmds
        ||| self.test_mcu_mbox_fips_self_test
        ||| self.test_mcu_mbox_fips_periodic
        ||| self.test_caliptra_util_host_validator
    }

    /// Whether mailbox commands are served.
    pub fn mbox(&self) -> (r: bool)
        ensures
            r == self.mbox_spec(),
    {
        self.test_mcu_mbox_cmds || self.test_mcu_mbox_fips_self_test
            || self.test_mcu_mbox_fips_periodic || self.test_caliptra_util_host_validator
    }

    /// Whether the firmware is updated.
    pub open spec fn firmware_update_spec(self) -> bool {
        self.test_firmware_update_streaming || self.test_firmware_update_flash
    }

    /// Whether the firmware is updated.
    pub fn firmware_update(&self) -> (r: bool)
        ensures
            r == self.firmware_update_spec(),
    {
        self.test_firmware_update_streaming || self.test_firmware_update_flash
    }

    /// Whether vendor-defined messages are served.
    pub open spec fn vdm_spec(self) -> bool {
        self.test_mctp_vdm_cmds || self.test_caliptra_util_host_mctp_vdm_validator
    }

    /// Whether vendor-defined messages are served.
    pub fn vdm(&self) -> (r: bool)
        ensures
            r == self.vdm_spec(),
    {
        self.test_mctp_vdm_cmds || self.test_caliptra_util_host_mctp_vdm_validator
    }
}

/// A step of the start of the application.
#[derive(Copy, Clone, Debug, PartialEq, Eq, Structural)]
pub enum StartStep {
    /// Set up what messages are printed to.
    SetPrinter,
    /// Load the images. Nothing else runs before that is done.
    LoadImages,
    /// Get ready to serve mailbox commands when polled.
    InitMboxPolling,
    /// Respond to attestation requests, and poll for mailbox commands if they
    /// can be served.
    SpdmCooperative,
    /// Run the periodic self-test.
    FipsPeriodic,
    /// Run the asynchronous tasks.
    StartAsync,
}

/// The steps of the start, in order.
pub open spec fn start_plan(features: Features) -> Seq<StartStep> {
    let boot = seq![StartStep::SetPrinter, StartStep::LoadImages];
    if features.mbox_spec() {
        let polled = boot.push(StartStep::InitMboxPolling);
        let attested = if features.firmware_update_spec() {
            polled
        } else {
            polled.push(StartStep::SpdmCooperative)
        };
        if features.test_mcu_mbox_fips_periodic {
            attested.push(StartStep::FipsPeriodic)
        } else {
            attested
        }
    } else {
        boot.push(StartStep::StartAsync)
    }
}

/// What the application does, in order.
pub fn start(features: &Features) -> (steps: Vec<StartStep>)
    ensures
        steps@ == start_plan(*features),
{
    let mut steps: Vec<StartStep> = Vec::new();
    steps.push(StartStep::SetPrinter);
    steps.push(StartStep::LoadImages);
    if features.mbox() {
        steps.push(StartStep::InitMboxPolling);
        if !features.firmware_update() {
            steps.push(StartStep::SpdmCooperative);
        }
        if features.test_mcu_mbox_fips_periodic {
            steps.push(StartStep::FipsPeriodic);
        }
    } else {
        steps.push(StartStep::StartAsync);
    }
    assert(steps@ =~= start_plan(*features));
    steps
}

/// The images are loaded before anything is served, and mailbox commands are
/// served by polling or not at all: the asynchronous tasks are started exactly
/// if they are not.
pub proof fn law_start_order(features: Features)
    ensures
        ({
            let plan = start_plan(features);
            &&& plan.len() >= 3
            &&& plan[0] == StartStep::SetPrinter
            &&& plan[1] == StartStep::LoadImages
            &&& plan.contains(StartStep::StartAsync) <==> !features.mbox_spec()
            &&& plan.contains(StartStep::InitMboxPolling) <==> features.mbox_spec()
            &&& plan.contains(StartStep::SpdmCooperative) <==> features.mbox_spec()
                && !features.firmware_update_spec()
            &&& plan.contains(StartStep::FipsPeriodic)
                <==> features.test_mcu_mbox_fips_periodic
        }),
{
    let plan = start_plan(features);
    if features.mbox_spec() {
        assert(plan[2] == StartStep::InitMboxPolling);
        if !features.firmware_update_spec() {
            assert(plan[3] == StartStep::SpdmCooperative);
        }
        if features.test_mcu_mbox_fips_periodic {
            assert(plan[plan.len() - 1] == StartStep::FipsPeriodic);
        }
    } else {
        assert(plan[2] == StartStep::StartAsync);
    }
}

/// An asynchronous task.
#[derive(Copy, Clone, Debug, PartialEq, Eq, Structural)]
pub enum AsyncTask {
    /// Respond to attestation requests.
    Spdm,
    /// Serve vendor-defined messages.
    Vdm,
}

/// The asynchronous tasks, in order. Each is run once the one before has
/// ended.
pub open spec fn async_plan(features: Features) -> Seq<AsyncTask> {
    let attested = if features.firmware_update_spec() {
        Seq::<AsyncTask>::empty()
    } else {
        seq![AsyncTask::Spdm]
    };
    if features.vdm_spec() {
        attested.push(AsyncTask::Vdm)
    } else {
        attested
    }
}

/// What the asynchronous part of the application does, in order.
pub fn async_main(features: &Features) -> (tasks: Vec<AsyncTask>)
    ensures
        tasks@ == async_plan(*features),
{
    let mut tasks: Vec<AsyncTask> = Vec::new();
    if !features.firmware_update() {
        tasks.push(AsyncTask::Spdm);
    }
    if features.vdm() {
        tasks.push(AsyncTask::Vdm);
    }
    assert(tasks@ =~= async_plan(*features));
    tasks
}

/// What the mailbox task asks for.
#[derive(Copy, Clone, Debug, PartialEq, Eq, Structural)]
pub enum MboxTaskAsk {
    /// Run the service until it ends. How it ends does not matter.
    StartService,
    /// Wait until something happens.
    YieldWait,
}

/// The mailbox task.
#[derive(Copy, Clone, Debug, PartialEq, Eq, Structural)]
pub struct MboxTask {
    /// Whether the service has ended.
    pub suspended: bool,
}

/// Starts the mailbox service, if the application is built with it. Without it
/// there is nothing to do.
pub fn start_mcu_mbox_service(features: &Features) -> (p: Progress<
    MboxTask,
    Result<(), ErrorCode>,
>)
    ensures
        p == if features.mbox_spec() {
            Progress::Pending(MboxTask { suspended: false })
        } else {
            Progress::<MboxTask, Result<(), ErrorCode>>::Done(Ok(()))
        },
{
    if features.mbox() {
        Progress::Pending(MboxTask { suspended: false })
    } else {
        Progress::Done(Ok(()))
    }
}

impl Machine for MboxTask {
    type Ask = MboxTaskAsk;

    /// There is nothing to tell the task but that it is done.
    type Answer = ();

    type Out = Result<(), ErrorCode>;

    open spec fn wf(self) -> bool {
        true
    }

    open spec fn question(self) -> MboxTaskAsk {
        if self.suspended {
            MboxTaskAsk::YieldWait
        } else {
            MboxTaskAsk::StartService
        }
    }

    open spec fn accepts(self, answer: ()) -> bool {
        true
    }

    open spec fn after(self, answer: ()) -> Progress<MboxTask, Result<(), ErrorCode>> {
        Progress::Pending(MboxTask { suspended: true })
    }

    proof fn after_is_wf(self, answer: ()) {
    }

    fn ask(&self) -> (asked: MboxTaskAsk) {
        if self.suspended {
            MboxTaskAsk::YieldWait
        } else {
            MboxTaskAsk::StartService
        }
    }

    fn resume(self, _answer: ()) -> (next: Progress<MboxTask, Result<(), ErrorCode>>) {
        Progress::Pending(MboxTask { suspended: true })
    }
}

/// The mailbox task runs the service once and then waits for ever.
pub proof fn law_mbox_task_never_ends(answers: Seq<()>)
    ensures
        ({
            let p = Progress::<MboxTask, Result<(), ErrorCode>>::Pending(
                MboxTask { suspended: false },
            );
            &&& machine::answered(p, answers)
            &&& machine::run(p, answers) == Progress::<MboxTask, Result<(), ErrorCode>>::Pending(
                MboxTask { suspended: answers.len() > 0 },
            )
            &&& machine::asked(p, answers) == Seq::new(
                answers.len(),
                |i: int|
                    if i == 0 {
                        MboxTaskAsk::StartService
                    } else {
                        MboxTaskAsk::YieldWait
                    },
            )
        }),
    decreases answers.len(),
{
    if answers.len() > 0 {
        law_mbox_task_never_ends(answers.drop_last());
    }
}

/// The code that the application exits with once the mailbox task has ended,
/// if it does.
pub fn mcu_mbox_task(ended: Result<(), ErrorCode>) -> (exit: Option<u32>)
    ensures
        exit == if ended is Ok {
            None::<u32>
        } else {
            Some(1u32)
        },
{
    match ended {
        Ok(_) => None,
        Err(_) => Some(1),
    }
}

/// What the application is built with decides what is served: mailbox commands
/// with any of the four tests of the mailbox, a firmware update with either of
/// its two tests, and vendor-defined messages with either of theirs.
pub proof fn law_features(f: Features)
    ensures
        f.mbox_spec() <==> f.test_mcu_mbox_cmds || f.test_mcu_mbox_fips_self_test
            || f.test_mcu_mbox_fips_periodic || f.test_caliptra_util_host_validator,
        f.firmware_update_spec() <==> f.test_firmware_update_streaming
            || f.test_firmware_update_flash,
        f.vdm_spec() <==> f.test_mctp_vdm_cmds || f.test_caliptra_util_host_mctp_vdm_validator,
{
}

/// The start in full. First come the printer and the images. Without mailbox
/// commands the asynchronous tasks follow and that is all. With them comes
/// polling; then the responder to attestation requests, unless the firmware is
/// updated; then the periodic self-test, if the application is built with it.
pub proof fn law_start_in_full(f: Features)
    ensures
        ({
            let plan = start_plan(f);
            let mbox = f.test_mcu_mbox_cmds || f.test_mcu_mbox_fips_self_test
                || f.test_mcu_mbox_fips_periodic || f.test_caliptra_util_host_validator;
            let attests = !(f.test_firmware_update_streaming || f.test_firmware_update_flash);
            let n = plan.len();
            &&& plan[0] == StartStep::SetPrinter && plan[1] == StartStep::LoadImages
            &&& !mbox ==> n == 3 && plan[2] == StartStep::StartAsync
            &&& mbox ==> {
                &&& plan[2] == StartStep::InitMboxPolling
                &&& n == 3 + (if attests {
                    1int
                } else {
                    0
                }) + (if f.test_mcu_mbox_fips_periodic {
                    1int
                } else {
                    0
                })
                &&& attests ==> plan[3] == StartStep::SpdmCooperative
                &&& f.test_mcu_mbox_fips_periodic ==> plan[n - 1] == StartStep::FipsPeriodic
            }
        }),
{
}

/// The asynchronous tasks in full: the responder to attestation requests, unless
/// the firmware is updated, and then vendor-defined messages, if the application
/// is built with them.
pub proof fn law_async_tasks(f: Features)
    ensures
        ({
            let plan = async_plan(f);
            let attests = !(f.test_firmware_update_streaming || f.test_firmware_update_flash);
            let vdm = f.test_mctp_vdm_cmds || f.test_caliptra_util_host_mctp_vdm_validator;
            &&& attests && vdm ==> plan == seq![AsyncTask::Spdm, AsyncTask::Vdm]
            &&& attests && !vdm ==> plan == seq![AsyncTask::Spdm]
            &&& !attests && vdm ==> plan == seq![AsyncTask::Vdm]
            &&& !attests && !vdm ==> plan.len() == 0
        }),
{
}

} // verus!
