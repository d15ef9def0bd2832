//! Completion and errors: what a caller learns after a batch was submitted.
//!
//! The engine keeps one error record per queue. The record counts the
//! commands that failed and describes the first of them, and only the first:
//! which kind of command it was, with which parameters, and the status code
//! it failed with. After waiting on a batch the caller looks at the fence and
//! at the record and decides whether the batch completed, failed, or is not
//! done yet.

use vstd::prelude::*;
use windows_core::HRESULT;
use crate::queue::Command;
use crate::queue::DSTORAGE_COMMAND_TYPE;
use crate::queue::DSTORAGE_COMMAND_TYPE_EVENT;
use crate::queue::DSTORAGE_COMMAND_TYPE_NONE;
use crate::queue::DSTORAGE_COMMAND_TYPE_REQUEST;
use crate::queue::DSTORAGE_COMMAND_TYPE_SIGNAL;
use crate::queue::DSTORAGE_COMMAND_TYPE_STATUS;
use crate::request::DSTORAGE_REQUEST;
use crate::request::DSTORAGE_SOURCE;
use crate::request::Handle;

verus! {

/// The status code of success.
pub const S_OK: i32 = 0;

/// Whether a status code stands for a failure: the negative codes do.
pub open spec fn failed(hresult: i32) -> bool {
    hresult < 0
}

/// `windows_core::HRESULT::is_err` on the status code `hresult`. The outside
/// function answers `true` exactly for the codes that are not success codes,
/// and the success codes are those that are not negative.
#[verifier::external_body]
fn hresult_is_err(hresult: i32) -> (r: bool)
    ensures
        r == failed(hresult),
{
    HRESULT(hresult).is_err()
}

/// Whether a status code stands for a failure.
pub fn IsFailure(hresult: i32) -> (r: bool)
    ensures
        r == failed(hresult),
{
    hresult_is_err(hresult)
}

/// Parameters of a request that failed.
#[derive(Clone, Debug)]
pub struct DSTORAGE_ERROR_PARAMETERS_REQUEST {
    /// Name of the file the request read from, where the engine reports it.
    pub Filename: Option<String>,
    /// The request as it was enqueued, with its name.
    pub Request: DSTORAGE_REQUEST,
}

/// Parameters of a status command that failed.
#[derive(Clone, Copy, Debug, PartialEq, Eq, Structural)]
pub struct DSTORAGE_ERROR_PARAMETERS_STATUS {
    pub StatusArray: Handle,
    pub Index: u32,
}

/// Parameters of a signal command that failed.
#[derive(Clone, Copy, Debug, PartialEq, Eq, Structural)]
pub struct DSTORAGE_ERROR_PARAMETERS_SIGNAL {
    pub Fence: Handle,
    pub Value: u64,
}

/// Parameters of an event command that failed.
#[derive(Clone, Copy, Debug, PartialEq, Eq, Structural)]
pub struct DSTORAGE_ERROR_PARAMETERS_EVENT {
    pub Handle: Handle,
}

/// Parameters of the command that failed, by its kind.
#[derive(Clone, Debug)]
pub enum DSTORAGE_ERROR_PARAMETERS {
    /// No command failed.
    NoCommand,
    Request(DSTORAGE_ERROR_PARAMETERS_REQUEST),
    Status(DSTORAGE_ERROR_PARAMETERS_STATUS),
    Signal(DSTORAGE_ERROR_PARAMETERS_SIGNAL),
    Event(DSTORAGE_ERROR_PARAMETERS_EVENT),
}

/// The first failure of a queue.
#[derive(Clone, Debug)]
pub struct DSTORAGE_ERROR_FIRST_FAILURE {
    /// The status code the command failed with.
    pub HResult: i32,
    /// The command's kind and parameters.
    pub Parameters: DSTORAGE_ERROR_PARAMETERS,
}

/// The error record of a queue: a snapshot, taken when it is asked for.
#[derive(Clone, Debug)]
pub struct DSTORAGE_ERROR_RECORD {
    /// Number of commands that failed.
    pub FailureCount: u32,
    /// The first of them. Later failures leave no detail.
    pub FirstFailure: DSTORAGE_ERROR_FIRST_FAILURE,
}

impl DSTORAGE_ERROR_PARAMETERS {
    /// The tag of the kind of command these parameters belong to.
    pub open spec fn kind(self) -> DSTORAGE_COMMAND_TYPE {
        match self {
            DSTORAGE_ERROR_PARAMETERS::NoCommand => DSTORAGE_COMMAND_TYPE_NONE,
            DSTORAGE_ERROR_PARAMETERS::Request(_) => DSTORAGE_COMMAND_TYPE_REQUEST,
            DSTORAGE_ERROR_PARAMETERS::Status(_) => DSTORAGE_COMMAND_TYPE_STATUS,
            DSTORAGE_ERROR_PARAMETERS::Signal(_) => DSTORAGE_COMMAND_TYPE_SIGNAL,
            DSTORAGE_ERROR_PARAMETERS::Event(_) => DSTORAGE_COMMAND_TYPE_EVENT,
        }
    }
}

impl DSTORAGE_ERROR_FIRST_FAILURE {
    /// The tag of the kind of command that failed.
    pub fn CommandType(&self) -> (r: DSTORAGE_COMMAND_TYPE)
        ensures
            r == self.Parameters.kind(),
    {
        match &self.Parameters {
            DSTORAGE_ERROR_PARAMETERS::NoCommand => DSTORAGE_COMMAND_TYPE_NONE,
            DSTORAGE_ERROR_PARAMETERS::Request(_) => DSTORAGE_COMMAND_TYPE_REQUEST,
            DSTORAGE_ERROR_PARAMETERS::Status(_) => DSTORAGE_COMMAND_TYPE_STATUS,
            DSTORAGE_ERROR_PARAMETERS::Signal(_) => DSTORAGE_COMMAND_TYPE_SIGNAL,
            DSTORAGE_ERROR_PARAMETERS::Event(_) => DSTORAGE_COMMAND_TYPE_EVENT,
        }
    }
}

/// The parameters that the record keeps of a command.
pub open spec fn parameters_of(command: Command) -> DSTORAGE_ERROR_PARAMETERS {
    match command {
        Command::Request(request) => DSTORAGE_ERROR_PARAMETERS::Request(
            DSTORAGE_ERROR_PARAMETERS_REQUEST { Filename: None, Request: request },
        ),
        Command::Status { StatusArray, Index } => DSTORAGE_ERROR_PARAMETERS::Status(
            DSTORAGE_ERROR_PARAMETERS_STATUS { StatusArray, Index },
        ),
        Command::Signal { Fence, Value } => DSTORAGE_ERROR_PARAMETERS::Signal(
            DSTORAGE_ERROR_PARAMETERS_SIGNAL { Fence, Value },
        ),
        Command::SetEvent { Handle } => DSTORAGE_ERROR_PARAMETERS::Event(
            DSTORAGE_ERROR_PARAMETERS_EVENT { Handle },
        ),
    }
}

/// What the record keeps of a command that failed with `hresult`.
pub open spec fn failure_of(command: Command, hresult: i32) -> DSTORAGE_ERROR_FIRST_FAILURE {
    DSTORAGE_ERROR_FIRST_FAILURE { HResult: hresult, Parameters: parameters_of(command) }
}

/// The record of a queue on which no command has failed.
pub open spec fn clean_record() -> DSTORAGE_ERROR_RECORD {
    DSTORAGE_ERROR_RECORD {
        FailureCount: 0,
        FirstFailure: DSTORAGE_ERROR_FIRST_FAILURE {
            HResult: S_OK,
            Parameters: DSTORAGE_ERROR_PARAMETERS::NoCommand,
        },
    }
}

impl DSTORAGE_ERROR_RECORD {
    /// The record after one more command ended with `hresult`. A success
    /// leaves it as it is. A failure is counted, and described if it is the
    /// first. The count stops at the largest value it can hold.
    pub open spec fn observed(self, command: Command, hresult: i32) -> DSTORAGE_ERROR_RECORD {
        if !failed(hresult) {
            self
        } else {
            DSTORAGE_ERROR_RECORD {
                FailureCount: if self.FailureCount < u32::MAX {
                    (self.FailureCount + 1) as u32
                } else {
                    u32::MAX
                },
                FirstFailure: if self.FailureCount == 0 {
                    failure_of(command, hresult)
                } else {
                    self.FirstFailure
                },
            }
        }
    }

    /// The record of a queue on which no command has failed.
    pub fn new() -> (r: DSTORAGE_ERROR_RECORD)
        ensures
            r == clean_record(),
    {
        DSTORAGE_ERROR_RECORD {
            FailureCount: 0,
            FirstFailure: DSTORAGE_ERROR_FIRST_FAILURE {
                HResult: S_OK,
                Parameters: DSTORAGE_ERROR_PARAMETERS::NoCommand,
            },
        }
    }

    /// Takes note that `command` ended with `hresult`.
    pub fn Observe(&mut self, command: Command, hresult: i32)
        ensures
            *final(self) == old(self).observed(command, hresult),
    {
        if !IsFailure(hresult) {
            return ;
        }
        if self.FailureCount == 0 {
            let parameters = match command {
                Command::Request(request) => DSTORAGE_ERROR_PARAMETERS::Request(
                    DSTORAGE_ERROR_PARAMETERS_REQUEST { Filename: None, Request: request },
                ),
                Command::Status { StatusArray, Index } => DSTORAGE_ERROR_PARAMETERS::Status(
                    DSTORAGE_ERROR_PARAMETERS_STATUS { StatusArray, Index },
                ),
                Command::Signal { Fence, Value } => DSTORAGE_ERROR_PARAMETERS::Signal(
                    DSTORAGE_ERROR_PARAMETERS_SIGNAL { Fence, Value },
                ),
                Command::SetEvent { Handle } => DSTORAGE_ERROR_PARAMETERS::Event(
                    DSTORAGE_ERROR_PARAMETERS_EVENT { Handle },
                ),
            };
            self.FirstFailure = DSTORAGE_ERROR_FIRST_FAILURE {
                HResult: hresult,
                Parameters: parameters,
            };
        }
        if self.FailureCount < u32::MAX {
            self.FailureCount = self.FailureCount + 1;
        }
    }
}

/// The record after the first `count` commands of a batch ended with the
/// status codes given with them.
pub open spec fn snapshot(outcomes: Seq<(Command, i32)>, count: nat) -> DSTORAGE_ERROR_RECORD
    decreases count,
{
    if count == 0 {
        clean_record()
    } else {
        snapshot(outcomes, (count - 1) as nat).observed(
            outcomes[count - 1].0,
            outcomes[count - 1].1,
        )
    }
}

/// The error record of a queue whose commands ended with the status codes
/// given with them, in this order.
pub fn Snapshot(outcomes: Vec<(Command, i32)>) -> (r: DSTORAGE_ERROR_RECORD)
    ensures
        r == snapshot(outcomes@, outcomes@.len()),
{
    let mut record = DSTORAGE_ERROR_RECORD::new();
    let ghost all = outcomes@;
    let ghost mut seen: nat = 0;
    for outcome in iter: outcomes
        invariant
            iter.seq() == all,
            seen == iter.index(),
            seen <= all.len(),
            record == snapshot(all, seen),
    {
        let (command, hresult) = outcome;
        record.Observe(command, hresult);
        proof {
            seen = seen + 1;
        }
    }
    record
}

/// Number of failures among the first `count` outcomes.
pub open spec fn failure_count(outcomes: Seq<(Command, i32)>, count: nat) -> nat
    decreases count,
{
    if count == 0 {
        0
    } else {
        failure_count(outcomes, (count - 1) as nat) + if failed(outcomes[count - 1].1) {
            1nat
        } else {
            0nat
        }
    }
}

proof fn lemma_snapshot_prefix(outcomes: Seq<(Command, i32)>, count: nat)
    requires
        count <= outcomes.len(),
    ensures
        snapshot(outcomes, count).FailureCount == if failure_count(outcomes, count) < u32::MAX {
            failure_count(outcomes, count)
        } else {
            u32::MAX as nat
        },
        failure_count(outcomes, count) == 0 ==> snapshot(outcomes, count) == clean_record(),
        failure_count(outcomes, count) == 0 <==> forall|i: int|
            0 <= i < count ==> !failed(#[trigger] outcomes[i].1),
        forall|first: int|
            0 <= first < count && failed(#[trigger] outcomes[first].1) && (forall|i: int|
                0 <= i < first ==> !failed(#[trigger] outcomes[i].1)) ==> snapshot(
                outcomes,
                count,
            ).FirstFailure == failure_of(outcomes[first].0, outcomes[first].1),
    decreases count,
{
    if count > 0 {
        let before = (count - 1) as nat;
        lemma_snapshot_prefix(outcomes, before);
        assert forall|first: int|
            0 <= first < count && failed(#[trigger] outcomes[first].1) && (forall|i: int|
                0 <= i < first ==> !failed(#[trigger] outcomes[i].1)) implies snapshot(
            outcomes,
            count,
        ).FirstFailure == failure_of(outcomes[first].0, outcomes[first].1) by {
            if first < before {
                assert(failure_count(outcomes, before) > 0);
            }
        }
    }
}

/// A batch in which no command failed leaves the record clean: the failure
/// count is 0.
pub proof fn lemma_clean_batch_counts_no_failure(outcomes: Seq<(Command, i32)>)
    requires
        forall|i: int| 0 <= i < outcomes.len() ==> !failed(#[trigger] outcomes[i].1),
    ensures
        snapshot(outcomes, outcomes.len()) == clean_record(),
        snapshot(outcomes, outcomes.len()).FailureCount == 0,
{
    lemma_snapshot_prefix(outcomes, outcomes.len());
}

/// A batch in which a command failed is counted and described by its first
/// failure: the failure count is at least 1, it is the number of commands
/// that failed as far as 32 bits can tell, and the first failure holds the
/// kind, the parameters and the status code of the first command that
/// failed.
pub proof fn lemma_first_failure_is_recorded(outcomes: Seq<(Command, i32)>, first: int)
    requires
        0 <= first < outcomes.len(),
        failed(outcomes[first].1),
        forall|i: int| 0 <= i < first ==> !failed(#[trigger] outcomes[i].1),
    ensures
        snapshot(outcomes, outcomes.len()).FailureCount >= 1,
        snapshot(outcomes, outcomes.len()).FailureCount == if failure_count(
            outcomes,
            outcomes.len(),
        ) < u32::MAX {
            failure_count(outcomes, outcomes.len())
        } else {
            u32::MAX as nat
        },
        snapshot(outcomes, outcomes.len()).FirstFailure == failure_of(
            outcomes[first].0,
            outcomes[first].1,
        ),
        snapshot(outcomes, outcomes.len()).FirstFailure.HResult == outcomes[first].1,
        snapshot(outcomes, outcomes.len()).FirstFailure.Parameters.kind()
            == outcomes[first].0.kind(),
{
    lemma_snapshot_prefix(outcomes, outcomes.len());
}

/// A region of a file.
#[derive(Clone, Copy, Debug, PartialEq, Eq, Structural)]
pub struct FileRegion {
    pub Offset: u64,
    pub Size: u32,
}

/// What a caller is told of a failed batch.
#[derive(Clone, Copy, Debug, PartialEq, Eq, Structural)]
pub struct FailureReport {
    /// The status code of the first failure.
    pub HResult: i32,
    /// The file region that the failed command read, if it was a request
    /// that read from a file.
    pub Region: Option<FileRegion>,
}

/// How a wait on a batch ended.
#[derive(Clone, Copy, Debug, PartialEq, Eq, Structural)]
pub enum WaitResult {
    /// The signal that the batch ends with was observed.
    Signaled,
    /// The time allowed ran out first.
    TimedOut,
}

/// What became of a batch, as far as the caller can tell after one wait.
#[derive(Clone, Copy, Debug, PartialEq, Eq, Structural)]
pub enum RunOutcome {
    /// The signal was observed and the record shows no failure.
    Completed,
    /// The wait timed out and the record shows no failure: the batch may
    /// still complete, or fail.
    NotYetComplete,
    /// The record shows a failure. What the batch wrote is undefined.
    Failed(FailureReport),
}

/// The value that a fence reports as completed once its device is removed.
pub const DEVICE_REMOVED: u64 = 0xffff_ffff_ffff_ffff;

/// How long the harness waits for the signal of a batch, in milliseconds.
pub const WAIT_TIMEOUT_MILLISECONDS: u32 = 5000;

/// How long the harness pauses after it saw the device removed, in seconds.
pub const DEVICE_REMOVED_PAUSE_SECONDS: u64 = 5;

/// Whether the caller has to pause before it asks for the error record: it
/// has to if the fence reports that the device was removed, since the engine
/// may not have noticed yet.
pub fn NeedsPause(completed_value: u64) -> (r: bool)
    ensures
        r == (completed_value == DEVICE_REMOVED),
{
    completed_value == DEVICE_REMOVED
}

impl DSTORAGE_ERROR_RECORD {
    /// What the record tells of a failure, if it shows one: it does if the
    /// status code of its first failure is a failure code.
    pub open spec fn report(self) -> Option<FailureReport> {
        if failed(self.FirstFailure.HResult) {
            Some(
                FailureReport {
                    HResult: self.FirstFailure.HResult,
                    Region: match self.FirstFailure.Parameters {
                        DSTORAGE_ERROR_PARAMETERS::Request(parameters) => match parameters.Request.Source {
                            DSTORAGE_SOURCE::File(file) => Some(
                                FileRegion { Offset: file.Offset, Size: file.Size },
                            ),
                            DSTORAGE_SOURCE::Memory(_) => None,
                        },
                        _ => None,
                    },
                },
            )
        } else {
            None
        }
    }

    /// What the record tells of a failure, if it shows one.
    pub fn Report(&self) -> (r: Option<FailureReport>)
        ensures
            r == self.report(),
    {
        if !IsFailure(self.FirstFailure.HResult) {
            return None;
        }
        let region = match &self.FirstFailure.Parameters {
            DSTORAGE_ERROR_PARAMETERS::Request(parameters) => match parameters.Request.Source {
                DSTORAGE_SOURCE::File(file) => Some(
                                FileRegion { Offset: file.Offset, Size: file.Size },
                            ),
                DSTORAGE_SOURCE::Memory(_) => None,
            },
            _ => None,
        };
        Some(FailureReport { HResult: self.FirstFailure.HResult, Region: region })
    }
}

/// What became of a batch, given how the wait ended and the record that the
/// queue gave afterwards. A timeout alone is neither success nor failure.
pub open spec fn run_outcome(wait: WaitResult, record: DSTORAGE_ERROR_RECORD) -> RunOutcome {
    match record.report() {
        Some(report) => RunOutcome::Failed(report),
        None => match wait {
            WaitResult::Signaled => RunOutcome::Completed,
            WaitResult::TimedOut => RunOutcome::NotYetComplete,
        },
    }
}

/// What became of a batch, given how the wait ended and the record that the
/// queue gave afterwards.
pub fn Classify(wait: WaitResult, record: &DSTORAGE_ERROR_RECORD) -> (r: RunOutcome)
    ensures
        r == run_outcome(wait, *record),
{
    match record.Report() {
        Some(report) => RunOutcome::Failed(report),
        None => match wait {
            WaitResult::Signaled => RunOutcome::Completed,
            WaitResult::TimedOut => RunOutcome::NotYetComplete,
        },
    }
}

/// Number of times that the harness waits once more for a batch that was
/// not done when the first wait ended.
pub const EXTRA_WAITS: u32 = 1;

/// What the harness does after a wait on a batch.
#[derive(Clone, Copy, Debug, PartialEq, Eq, Structural)]
pub enum Step {
    /// The batch completed: go on with the next.
    GoOn,
    /// The batch is not done yet: wait once more, then ask the engine again.
    WaitAgain,
    /// The batch is still not done after the extra waits: give up.
    GiveUp,
    /// The batch failed: report the failure and stop.
    Stop(FailureReport),
}

/// What the harness does after the wait with the given number, counted from
/// 1, left the batch with `outcome`.
pub open spec fn step_after(outcome: RunOutcome, waits: u32) -> Step {
    match outcome {
        RunOutcome::Completed => Step::GoOn,
        RunOutcome::Failed(report) => Step::Stop(report),
        RunOutcome::NotYetComplete => if waits <= EXTRA_WAITS {
            Step::WaitAgain
        } else {
            Step::GiveUp
        },
    }
}

/// What the harness does after the wait with the given number, counted from
/// 1, left the batch with `outcome`. A batch that is not done gets a bounded
/// number of further waits; a failure is final at once.
pub fn AfterWait(outcome: RunOutcome, waits: u32) -> (r: Step)
    ensures
        r == step_after(outcome, waits),
{
    match outcome {
        RunOutcome::Completed => Step::GoOn,
        RunOutcome::Failed(report) => Step::Stop(report),
        RunOutcome::NotYetComplete => if waits <= EXTRA_WAITS {
            Step::WaitAgain
        } else {
            Step::GiveUp
        },
    }
}

/// Length of the text at the start of `units`: the number of units before
/// the first that is 0, or all of them if none is.
pub open spec fn text_len<T>(units: Seq<T>, zero: T) -> nat
    decreases units.len(),
{
    if units.len() == 0 || units[0] == zero {
        0
    } else {
        1 + text_len(units.drop_first(), zero)
    }
}

/// The text ends before the first unit that is 0.
pub proof fn lemma_text_ends_at_first_zero<T>(units: Seq<T>, zero: T)
    ensures
        text_len(units, zero) <= units.len(),
        forall|i: int| 0 <= i < text_len(units, zero) ==> units[i] != zero,
        text_len(units, zero) < units.len() ==> units[text_len(units, zero) as int] == zero,
    decreases units.len(),
{
    if units.len() > 0 && units[0] != zero {
        let rest = units.drop_first();
        lemma_text_ends_at_first_zero(rest, zero);
        let len = text_len(units, zero);
        assert(len == 1 + text_len(rest, zero));
        assert forall|i: int| 0 <= i < len implies units[i] != zero by {
            if i > 0 {
                assert(units[i] == rest[i - 1]);
            }
        }
        if len < units.len() {
            assert(units[len as int] == rest[len - 1]);
        }
    }
}

/// Length of the file name at the start of a buffer of UTF-16 units that
/// the engine filled: the name ends before the first unit that is 0.
pub fn FilenameLength(units: &[u16]) -> (r: usize)
    ensures
        r == text_len(units@, 0u16),
{
    let mut index: usize = 0;
    assert(units@.skip(0) =~= units@);
    while index < units.len() && units[index] != 0
        invariant
            index <= units.len(),
            text_len(units@, 0u16) == index + text_len(units@.skip(index as int), 0u16),
        decreases units.len() - index,
    {
        assert(units@.skip(index as int)[0] == units@[index as int]);
        assert(units@.skip(index as int).drop_first() =~= units@.skip(index + 1));
        index += 1;
    }
    proof {
        if index < units.len() {
            assert(units@.skip(index as int)[0] == units@[index as int]);
        }
    }
    index
}

/// Length of the request name at the start of a buffer of bytes that the
/// engine filled: the name ends before the first byte that is 0.
pub fn RequestNameLength(units: &[u8]) -> (r: usize)
    ensures
        r == text_len(units@, 0u8),
{
    let mut index: usize = 0;
    assert(units@.skip(0) =~= units@);
    while index < units.len() && units[index] != 0
        invariant
            index <= units.len(),
            text_len(units@, 0u8) == index + text_len(units@.skip(index as int), 0u8),
        decreases units.len() - index,
    {
        assert(units@.skip(index as int)[0] == units@[index as int]);
        assert(units@.skip(index as int).drop_first() =~= units@.skip(index + 1));
        index += 1;
    }
    proof {
        if index < units.len() {
            assert(units@.skip(index as int)[0] == units@[index as int]);
        }
    }
    index
}

} // verus!
