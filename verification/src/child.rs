use vstd::prelude::*;

use crate::error::Error;

verus! {

/// What a provider child process left behind once it exited on its own:
/// whether its exit status was success, and everything it wrote to stdout.
#[derive(Debug, PartialEq, Eq)]
pub struct ChildOutput {
    pub success: bool,
    pub stdout: Vec<u8>,
}

/// How long supervision pauses between two checks of a running child.
pub const POLL_PAUSE_MILLISECONDS: u64 = 10;

/// How long a child whose group was asked to terminate has to exit before
/// the group is killed, counted from the delivery of the termination signal.
pub const GRACE_MILLISECONDS: u64 = 100;

/// A signal sent to the child's whole process group.
#[derive(Clone, Copy, Debug, PartialEq, Eq, Structural)]
pub enum GroupSignal {
    Terminate,
    Kill,
}

/// Where the supervision of one child process stands.
#[derive(Clone, Copy, Debug, PartialEq, Eq, Structural)]
pub enum SupervisionPhase {
    /// The child is being started, its stdout sent to a fresh temporary file.
    Launching,
    /// The child runs and its deadline has not yet passed.
    Watching,
    /// The child exited in time; its output is being read back.
    Collecting { success: bool },
    /// The deadline passed; the process group is being sent a termination signal.
    Terminating,
    /// The group was asked to terminate and has a short grace period to exit.
    Grace,
    /// The grace period ran out; the process group is being killed.
    Killing,
    /// The killed child is being waited for.
    Reaping,
    /// Supervision is over.
    Finished,
}

/// What the supervisor of the child observed after carrying out a directive.
#[derive(Debug, PartialEq, Eq)]
pub enum ChildObservation {
    /// The child was started.
    Launched,
    /// The temporary output file or the child could not be set up.
    LaunchFailed,
    /// Asking the child whether it had exited failed.
    PollFailed,
    /// The child had exited, with a success status or not.
    Exited { success: bool },
    /// The child was still running, and the deadline in force had not passed.
    StillRunning,
    /// The deadline in force had passed.
    DeadlinePassed,
    /// The child's output file, read back in full, or nothing if it could not be read.
    OutputRead(Option<Vec<u8>>),
    /// The signal reached the process group.
    SignalDelivered,
    /// The signal could not be sent.
    SignalFailed,
    /// The child was waited for.
    Reaped,
    /// Waiting for the child failed.
    ReapFailed,
}

/// What the supervisor of the child is to do next.
#[derive(Debug, PartialEq, Eq)]
pub enum SupervisionDirective {
    /// Start the child in its own process group, stdout to a temporary file,
    /// stderr discarded.
    Launch,
    /// Pause for the given number of milliseconds, then ask whether the
    /// child has exited and then whether the call deadline has passed.
    CheckChild { pause_milliseconds: u64 },
    /// Read the child's output file back.
    ReadOutput,
    /// Send a signal to the child's process group.
    SignalGroup(GroupSignal),
    /// Pause for the given number of milliseconds, then check whether the
    /// grace period of `GRACE_MILLISECONDS` after the termination signal has
    /// passed and, while it has not, whether the child has exited.
    CheckChildWithinGrace { pause_milliseconds: u64 },
    /// Wait for the killed child.
    Reap,
    /// Supervision ends with this outcome.
    Finish(Result<ChildOutput, Error>),
}

/// The supervision of a child process, step by step: from the phase and what
/// was observed, the next phase and what to do. A child that outlives its
/// deadline has its whole process group terminated, then killed once a grace
/// period runs out, and the call fails as timed out; its output is never used.
pub open spec fn supervision_step(phase: SupervisionPhase, observation: ChildObservation) -> (SupervisionPhase, SupervisionDirective) {
    match (phase, observation) {
        (SupervisionPhase::Launching, ChildObservation::Launched) => (
            SupervisionPhase::Watching,
            SupervisionDirective::CheckChild { pause_milliseconds: 0 },
        ),
        (SupervisionPhase::Launching, _) => (
            SupervisionPhase::Finished,
            SupervisionDirective::Finish(Err(Error::ProviderCommandUnavailable)),
        ),
        (SupervisionPhase::Watching, ChildObservation::Exited { success }) => (
            SupervisionPhase::Collecting { success },
            SupervisionDirective::ReadOutput,
        ),
        (SupervisionPhase::Watching, ChildObservation::StillRunning) => (
            SupervisionPhase::Watching,
            SupervisionDirective::CheckChild { pause_milliseconds: POLL_PAUSE_MILLISECONDS },
        ),
        (SupervisionPhase::Watching, ChildObservation::DeadlinePassed) => (
            SupervisionPhase::Terminating,
            SupervisionDirective::SignalGroup(GroupSignal::Terminate),
        ),
        (SupervisionPhase::Watching, _) => (
            SupervisionPhase::Finished,
            SupervisionDirective::Finish(Err(Error::ProviderCommandUnavailable)),
        ),
        (SupervisionPhase::Collecting { success }, ChildObservation::OutputRead(Some(stdout))) => (
            SupervisionPhase::Finished,
            SupervisionDirective::Finish(Ok(ChildOutput { success, stdout })),
        ),
        (SupervisionPhase::Collecting { .. }, _) => (
            SupervisionPhase::Finished,
            SupervisionDirective::Finish(Err(Error::ProviderCommandUnavailable)),
        ),
        (SupervisionPhase::Terminating, ChildObservation::SignalDelivered) => (
            SupervisionPhase::Grace,
            SupervisionDirective::CheckChildWithinGrace { pause_milliseconds: 0 },
        ),
        (SupervisionPhase::Grace, ChildObservation::Exited { .. }) => (
            SupervisionPhase::Finished,
            SupervisionDirective::Finish(Err(Error::ProviderCommandTimedOut)),
        ),
        (SupervisionPhase::Grace, ChildObservation::StillRunning) => (
            SupervisionPhase::Grace,
            SupervisionDirective::CheckChildWithinGrace { pause_milliseconds: POLL_PAUSE_MILLISECONDS },
        ),
        (SupervisionPhase::Grace, ChildObservation::DeadlinePassed) => (
            SupervisionPhase::Killing,
            SupervisionDirective::SignalGroup(GroupSignal::Kill),
        ),
        (SupervisionPhase::Killing, ChildObservation::SignalDelivered) => (
            SupervisionPhase::Reaping,
            SupervisionDirective::Reap,
        ),
        (SupervisionPhase::Reaping, ChildObservation::Reaped) => (
            SupervisionPhase::Finished,
            SupervisionDirective::Finish(Err(Error::ProviderCommandTimedOut)),
        ),
        (_, _) => (
            SupervisionPhase::Finished,
            SupervisionDirective::Finish(Err(Error::ProviderProcessGroupTeardownFailed)),
        ),
    }
}

impl SupervisionPhase {
    /// Where supervision starts: launching the child.
    pub fn start() -> (start: (SupervisionPhase, SupervisionDirective))
        ensures
            start == (SupervisionPhase::Launching, SupervisionDirective::Launch),
    {
        (SupervisionPhase::Launching, SupervisionDirective::Launch)
    }

    /// One step of supervision.
    pub fn step(self, observation: ChildObservation) -> (next: (SupervisionPhase, SupervisionDirective))
        ensures
            next == supervision_step(self, observation),
    {
        match (self, observation) {
            (SupervisionPhase::Launching, ChildObservation::Launched) => (
                SupervisionPhase::Watching,
                SupervisionDirective::CheckChild { pause_milliseconds: 0 },
            ),
            (SupervisionPhase::Launching, _) => (
                SupervisionPhase::Finished,
                SupervisionDirective::Finish(Err(Error::ProviderCommandUnavailable)),
            ),
            (SupervisionPhase::Watching, ChildObservation::Exited { success }) => (
                SupervisionPhase::Collecting { success },
                SupervisionDirective::ReadOutput,
            ),
            (SupervisionPhase::Watching, ChildObservation::StillRunning) => (
                SupervisionPhase::Watching,
                SupervisionDirective::CheckChild { pause_milliseconds: POLL_PAUSE_MILLISECONDS },
            ),
            (SupervisionPhase::Watching, ChildObservation::DeadlinePassed) => (
                SupervisionPhase::Terminating,
                SupervisionDirective::SignalGroup(GroupSignal::Terminate),
            ),
            (SupervisionPhase::Watching, _) => (
                SupervisionPhase::Finished,
                SupervisionDirective::Finish(Err(Error::ProviderCommandUnavailable)),
            ),
            (SupervisionPhase::Collecting { success }, ChildObservation::OutputRead(Some(stdout))) => (
                SupervisionPhase::Finished,
                SupervisionDirective::Finish(Ok(ChildOutput { success, stdout })),
            ),
            (SupervisionPhase::Collecting { .. }, _) => (
                SupervisionPhase::Finished,
                SupervisionDirective::Finish(Err(Error::ProviderCommandUnavailable)),
            ),
            (SupervisionPhase::Terminating, ChildObservation::SignalDelivered) => (
                SupervisionPhase::Grace,
                SupervisionDirective::CheckChildWithinGrace { pause_milliseconds: 0 },
            ),
            (SupervisionPhase::Grace, ChildObservation::Exited { .. }) => (
                SupervisionPhase::Finished,
                SupervisionDirective::Finish(Err(Error::ProviderCommandTimedOut)),
            ),
            (SupervisionPhase::Grace, ChildObservation::StillRunning) => (
                SupervisionPhase::Grace,
                SupervisionDirective::CheckChildWithinGrace { pause_milliseconds: POLL_PAUSE_MILLISECONDS },
            ),
            (SupervisionPhase::Grace, ChildObservation::DeadlinePassed) => (
                SupervisionPhase::Killing,
                SupervisionDirective::SignalGroup(GroupSignal::Kill),
            ),
            (SupervisionPhase::Killing, ChildObservation::SignalDelivered) => (
                SupervisionPhase::Reaping,
                SupervisionDirective::Reap,
            ),
            (SupervisionPhase::Reaping, ChildObservation::Reaped) => (
                SupervisionPhase::Finished,
                SupervisionDirective::Finish(Err(Error::ProviderCommandTimedOut)),
            ),
            (_, _) => (
                SupervisionPhase::Finished,
                SupervisionDirective::Finish(Err(Error::ProviderProcessGroupTeardownFailed)),
            ),
        }
    }
}

/// The phases a child enters once its deadline has passed.
pub open spec fn is_overdue(phase: SupervisionPhase) -> bool {
    phase is Terminating || phase is Grace || phase is Killing || phase is Reaping
}

/// A child that exits during the grace period after its group was asked to
/// terminate finishes the call as timed out, whatever its exit status: a
/// child killed by the termination signal exits unsuccessfully, and that is a
/// clean teardown, not a failed one.
pub proof fn lemma_exit_in_grace_is_a_timeout(success: bool)
    ensures
        supervision_step(SupervisionPhase::Grace, ChildObservation::Exited { success }) == (
            SupervisionPhase::Finished,
            SupervisionDirective::Finish(Err(Error::ProviderCommandTimedOut)),
        ),
{
}

/// Once a child has outlived its deadline, supervision stays in the teardown
/// phases until it finishes, never reads the child's output, and finishes
/// only as timed out or as a failed teardown.
pub proof fn lemma_overdue_child_never_succeeds(phase: SupervisionPhase, observation: ChildObservation)
    requires
        is_overdue(phase),
    ensures
        ({
            let (next, directive) = supervision_step(phase, observation);
            &&& is_overdue(next) || next is Finished
            &&& !(directive is ReadOutput)
            &&& directive matches SupervisionDirective::Finish(outcome) ==> outcome
                == Err::<ChildOutput, Error>(Error::ProviderCommandTimedOut) || outcome == Err::<
                ChildOutput,
                Error,
            >(Error::ProviderProcessGroupTeardownFailed)
        }),
{
}

/// The process group is killed only when the grace period after the
/// termination signal has run out, and asked to terminate only when the call
/// deadline has passed while the child was watched.
pub proof fn lemma_signals_follow_deadlines(phase: SupervisionPhase, observation: ChildObservation)
    ensures
        supervision_step(phase, observation).1 == SupervisionDirective::SignalGroup(GroupSignal::Kill)
            ==> phase == SupervisionPhase::Grace && observation == ChildObservation::DeadlinePassed,
        supervision_step(phase, observation).1 == SupervisionDirective::SignalGroup(
            GroupSignal::Terminate,
        ) ==> phase == SupervisionPhase::Watching && observation == ChildObservation::DeadlinePassed,
{
}

/// Output is handed on only when it was read back after the child exited on
/// its own, before its deadline, and it is handed on unchanged with the exit
/// status observed then.
pub proof fn lemma_output_only_from_timely_exit(phase: SupervisionPhase, observation: ChildObservation)
    ensures
        supervision_step(phase, observation).0 is Collecting ==> (observation matches ChildObservation::Exited { success }
            && phase == SupervisionPhase::Watching
            && supervision_step(phase, observation).0 == (SupervisionPhase::Collecting { success })),
        supervision_step(phase, observation).1 matches SupervisionDirective::Finish(Ok(output))
            ==> (phase == (SupervisionPhase::Collecting { success: output.success })
            && observation == ChildObservation::OutputRead(Some(output.stdout))),
{
}

/// The process group id that signals aimed at a child's whole group are sent
/// to: the negated child id.
pub fn process_group_id(child_id: u32) -> (group: i32)
    requires
        child_id <= i32::MAX,
    ensures
        group == -(child_id as int),
{
    let id: i32 = child_id as i32;
    -id
}

} // verus!
