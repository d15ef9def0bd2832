//! The command queue: an ordered, bounded buffer of commands that is handed
//! to the engine one batch at a time.
//!
//! A queue is created with a fixed capacity and priority. Four kinds of
//! command are appended to it, in any mix; the engine processes them in the
//! order in which they were appended. `Submit` hands over everything
//! appended since the last submit and leaves the queue empty for the next
//! batch. Submitting does not wait: completion is observed through the
//! status, signal and event commands of the batch.

use vstd::prelude::*;
use crate::options::DSTORAGE_REQUEST_SOURCE_TYPE;
use crate::request::DSTORAGE_REQUEST;
use crate::request::Handle;

verus! {

/// Which kind of command an error record speaks of.
pub type DSTORAGE_COMMAND_TYPE = i32;

pub const DSTORAGE_COMMAND_TYPE_NONE: DSTORAGE_COMMAND_TYPE = -1;

pub const DSTORAGE_COMMAND_TYPE_REQUEST: DSTORAGE_COMMAND_TYPE = 0;

pub const DSTORAGE_COMMAND_TYPE_STATUS: DSTORAGE_COMMAND_TYPE = 1;

pub const DSTORAGE_COMMAND_TYPE_SIGNAL: DSTORAGE_COMMAND_TYPE = 2;

pub const DSTORAGE_COMMAND_TYPE_EVENT: DSTORAGE_COMMAND_TYPE = 3;

/// Priority of a queue among the queues of one engine.
pub type DSTORAGE_PRIORITY = i8;

pub const DSTORAGE_PRIORITY_LOW: DSTORAGE_PRIORITY = -1;

pub const DSTORAGE_PRIORITY_NORMAL: DSTORAGE_PRIORITY = 0;

pub const DSTORAGE_PRIORITY_HIGH: DSTORAGE_PRIORITY = 1;

pub const DSTORAGE_PRIORITY_REALTIME: DSTORAGE_PRIORITY = 2;

/// Smallest capacity a queue can have.
pub const DSTORAGE_MIN_QUEUE_CAPACITY: u16 = 0x80;

/// Largest capacity a queue can have.
pub const DSTORAGE_MAX_QUEUE_CAPACITY: u16 = 0x2000;

/// One command of a batch.
#[derive(Clone, Debug)]
pub enum Command {
    /// Transfer data.
    Request(DSTORAGE_REQUEST),
    /// Record in a slot of a status array that everything before is done.
    Status { StatusArray: Handle, Index: u32 },
    /// Advance a fence to a value once everything before is done.
    Signal { Fence: Handle, Value: u64 },
    /// Set an event once everything before is done.
    SetEvent { Handle: Handle },
}

impl Command {
    /// The tag of this command's kind.
    pub open spec fn kind(self) -> DSTORAGE_COMMAND_TYPE {
        match self {
            Command::Request(_) => DSTORAGE_COMMAND_TYPE_REQUEST,
            Command::Status { .. } => DSTORAGE_COMMAND_TYPE_STATUS,
            Command::Signal { .. } => DSTORAGE_COMMAND_TYPE_SIGNAL,
            Command::SetEvent { .. } => DSTORAGE_COMMAND_TYPE_EVENT,
        }
    }

    /// The tag of this command's kind.
    pub fn CommandType(&self) -> (r: DSTORAGE_COMMAND_TYPE)
        ensures
            r == self.kind(),
    {
        match self {
            Command::Request(_) => DSTORAGE_COMMAND_TYPE_REQUEST,
            Command::Status { .. } => DSTORAGE_COMMAND_TYPE_STATUS,
            Command::Signal { .. } => DSTORAGE_COMMAND_TYPE_SIGNAL,
            Command::SetEvent { .. } => DSTORAGE_COMMAND_TYPE_EVENT,
        }
    }

    /// Whether a bulk cancellation with this mask and value takes this
    /// command: only requests are cancelled, and only those whose tag under
    /// the mask is the value.
    pub open spec fn is_cancelled_by(self, mask: u64, value: u64) -> bool {
        match self {
            Command::Request(request) => request.is_cancelled_by(mask, value),
            _ => false,
        }
    }

    /// Whether a bulk cancellation with this mask and value takes this
    /// command.
    pub fn MatchesTag(&self, mask: u64, value: u64) -> (r: bool)
        ensures
            r == self.is_cancelled_by(mask, value),
    {
        match self {
            Command::Request(request) => request.MatchesTag(mask, value),
            _ => false,
        }
    }
}

/// What a queue is created with.
#[derive(Clone, Debug)]
pub struct DSTORAGE_QUEUE_DESC {
    /// The kind of source that the queue's requests read from.
    pub SourceType: DSTORAGE_REQUEST_SOURCE_TYPE,
    /// Number of commands the queue can hold.
    pub Capacity: u16,
    pub Priority: DSTORAGE_PRIORITY,
    /// A name for diagnostics.
    pub Name: Option<String>,
    /// The device whose resources the queue writes to.
    pub Device: Handle,
}

/// Why a queue operation was refused.
#[derive(Clone, Copy, Debug, PartialEq, Eq, Structural)]
pub enum QueueError {
    /// The capacity asked for is below the minimum or above the maximum.
    InvalidCapacity,
    /// The queue holds as many commands as its capacity allows.
    Full,
}

/// The commands left after a bulk cancellation: all but the requests that
/// the cancellation takes, in their old order.
pub open spec fn after_cancel(pending: Seq<Command>, mask: u64, value: u64) -> Seq<Command> {
    pending.filter(|command: Command| !command.is_cancelled_by(mask, value))
}

/// An ordered, bounded buffer of commands.
pub struct CommandQueue {
    desc: DSTORAGE_QUEUE_DESC,
    pending: Vec<Command>,
}

impl CommandQueue {
    /// What every queue that [`CommandQueue::new`] made satisfies, and every
    /// operation keeps: the capacity lies between the minimum and the
    /// maximum, and the queue holds no more commands than its capacity.
    pub closed spec fn well_formed(self) -> bool {
        &&& DSTORAGE_MIN_QUEUE_CAPACITY <= self.desc.Capacity <= DSTORAGE_MAX_QUEUE_CAPACITY
        &&& self.pending.len() <= self.desc.Capacity
    }

    /// What the queue was created with.
    pub closed spec fn desc(self) -> DSTORAGE_QUEUE_DESC {
        self.desc
    }

    /// The commands appended since the last submit, oldest first.
    pub closed spec fn pending(self) -> Seq<Command> {
        self.pending@
    }

    /// A well-formed queue is bounded by its capacity.
    pub proof fn lemma_bounded(self)
        requires
            self.well_formed(),
        ensures
            self.pending().len() <= self.desc().Capacity,
            DSTORAGE_MIN_QUEUE_CAPACITY <= self.desc().Capacity <= DSTORAGE_MAX_QUEUE_CAPACITY,
    {
    }

    /// Creates a queue. Its capacity and priority stay as they are here.
    pub fn new(desc: DSTORAGE_QUEUE_DESC) -> (r: Result<CommandQueue, QueueError>)
        ensures
            DSTORAGE_MIN_QUEUE_CAPACITY <= desc.Capacity <= DSTORAGE_MAX_QUEUE_CAPACITY <==> r is Ok,
            r matches Ok(queue) ==> {
                &&& queue.well_formed()
                &&& queue.desc() == desc
                &&& queue.pending() == Seq::<Command>::empty()
            },
            r matches Err(error) ==> error == QueueError::InvalidCapacity,
    {
        if desc.Capacity < DSTORAGE_MIN_QUEUE_CAPACITY || desc.Capacity
            > DSTORAGE_MAX_QUEUE_CAPACITY {
            return Err(QueueError::InvalidCapacity);
        }
        Ok(CommandQueue { desc, pending: Vec::new() })
    }

    /// Appends one command, if there is room.
    pub fn Enqueue(&mut self, command: Command) -> (r: Result<(), QueueError>)
        requires
            old(self).well_formed(),
        ensures
            final(self).well_formed(),
            final(self).desc() == old(self).desc(),
            old(self).pending().len() < old(self).desc().Capacity <==> r is Ok,
            r is Ok ==> final(self).pending() == old(self).pending().push(command),
            r is Err ==> r == Err::<(), QueueError>(QueueError::Full) && final(self).pending()
                == old(self).pending(),
    {
        if self.pending.len() >= self.desc.Capacity as usize {
            return Err(QueueError::Full);
        }
        self.pending.push(command);
        Ok(())
    }

    /// Appends a transfer.
    pub fn EnqueueRequest(&mut self, request: DSTORAGE_REQUEST) -> (r: Result<(), QueueError>)
        requires
            old(self).well_formed(),
        ensures
            final(self).well_formed(),
            final(self).desc() == old(self).desc(),
            old(self).pending().len() < old(self).desc().Capacity <==> r is Ok,
            r is Ok ==> final(self).pending() == old(self).pending().push(
                Command::Request(request),
            ),
            r is Err ==> r == Err::<(), QueueError>(QueueError::Full) && final(self).pending()
                == old(self).pending(),
    {
        self.Enqueue(Command::Request(request))
    }

    /// Appends a command that marks slot `index` of a status array complete
    /// once everything appended before it is done.
    pub fn EnqueueStatus(&mut self, statusArray: Handle, index: u32) -> (r: Result<
        (),
        QueueError,
    >)
        requires
            old(self).well_formed(),
        ensures
            final(self).well_formed(),
            final(self).desc() == old(self).desc(),
            old(self).pending().len() < old(self).desc().Capacity <==> r is Ok,
            r is Ok ==> final(self).pending() == old(self).pending().push(
                (Command::Status { StatusArray: statusArray, Index: index }),
            ),
            r is Err ==> r == Err::<(), QueueError>(QueueError::Full) && final(self).pending()
                == old(self).pending(),
    {
        self.Enqueue(Command::Status { StatusArray: statusArray, Index: index })
    }

    /// Appends a command that advances a fence to `value` once everything
    /// appended before it is done.
    pub fn EnqueueSignal(&mut self, fence: Handle, value: u64) -> (r: Result<(), QueueError>)
        requires
            old(self).well_formed(),
        ensures
            final(self).well_formed(),
            final(self).desc() == old(self).desc(),
            old(self).pending().len() < old(self).desc().Capacity <==> r is Ok,
            r is Ok ==> final(self).pending() == old(self).pending().push(
                (Command::Signal { Fence: fence, Value: value }),
            ),
            r is Err ==> r == Err::<(), QueueError>(QueueError::Full) && final(self).pending()
                == old(self).pending(),
    {
        self.Enqueue(Command::Signal { Fence: fence, Value: value })
    }

    /// Appends a command that sets an event once everything appended before
    /// it is done.
    pub fn EnqueueSetEvent(&mut self, handle: Handle) -> (r: Result<(), QueueError>)
        requires
            old(self).well_formed(),
        ensures
            final(self).well_formed(),
            final(self).desc() == old(self).desc(),
            old(self).pending().len() < old(self).desc().Capacity <==> r is Ok,
            r is Ok ==> final(self).pending() == old(self).pending().push(
                (Command::SetEvent { Handle: handle }),
            ),
            r is Err ==> r == Err::<(), QueueError>(QueueError::Full) && final(self).pending()
                == old(self).pending(),
    {
        self.Enqueue(Command::SetEvent { Handle: handle })
    }

    /// Hands the commands appended since the last submit to the caller, who
    /// passes them to the engine in this order, and leaves the queue empty
    /// for the next batch.
    pub fn Submit(&mut self) -> (batch: Vec<Command>)
        requires
            old(self).well_formed(),
        ensures
            final(self).well_formed(),
            final(self).desc() == old(self).desc(),
            batch@ == old(self).pending(),
            final(self).pending() == Seq::<Command>::empty(),
    {
        let mut batch: Vec<Command> = Vec::new();
        std::mem::swap(&mut self.pending, &mut batch);
        batch
    }

    /// Takes out every pending request whose cancellation tag under `mask`
    /// is `value`. The other commands stay, in their order.
    pub fn CancelRequestsWithTag(&mut self, mask: u64, value: u64)
        requires
            old(self).well_formed(),
        ensures
            final(self).well_formed(),
            final(self).desc() == old(self).desc(),
            final(self).pending() == after_cancel(old(self).pending(), mask, value),
    {
        let mut all: Vec<Command> = Vec::new();
        std::mem::swap(&mut self.pending, &mut all);
        let ghost keep = |command: Command| !command.is_cancelled_by(mask, value);
        let ghost before = all@;
        let ghost mut moved: int = 0;
        proof {
            reveal(Seq::filter);
            assert(before.take(0) =~= Seq::<Command>::empty());
        }
        for command in iter: all
            invariant
                self.desc == old(self).desc,
                iter.seq() == before,
                moved == iter.index(),
                0 <= moved <= before.len(),
                self.pending@ == before.take(moved).filter(keep),
                keep == |command: Command| !command.is_cancelled_by(mask, value),
        {
            proof {
                reveal(Seq::filter);
                assert(before.take(moved + 1).drop_last() =~= before.take(moved));
                assert(before.take(moved + 1).last() == command);
                moved = moved + 1;
            }
            if !command.MatchesTag(mask, value) {
                self.pending.push(command);
            }
        }
        proof {
            assert(before.take(before.len() as int) =~= before);
            before.lemma_filter_len(keep);
        }
    }

    /// Number of commands that can still be appended.
    pub fn EmptySlotCount(&self) -> (r: u16)
        requires
            self.well_formed(),
        ensures
            r == self.desc().Capacity - self.pending().len(),
    {
        self.desc.Capacity - self.pending.len() as u16
    }

    /// What the queue was created with.
    pub fn Desc(&self) -> (r: &DSTORAGE_QUEUE_DESC)
        ensures
            *r == self.desc(),
    {
        &self.desc
    }

    /// Gives the queue up. The commands that were appended and never
    /// submitted come back, in their order; the engine never sees them.
    pub fn Close(self) -> (dropped: Vec<Command>)
        ensures
            dropped@ == self.pending(),
    {
        self.pending
    }
}

/// What a queue holds after `commands` were appended to `pending` one by
/// one.
pub open spec fn enqueue_all(pending: Seq<Command>, commands: Seq<Command>) -> Seq<Command>
    decreases commands.len(),
{
    if commands.len() == 0 {
        pending
    } else {
        enqueue_all(pending, commands.drop_last()).push(commands.last())
    }
}

/// Commands leave a queue in the order in which they were appended: a batch
/// is what the queue held, followed by what was appended, each command in
/// its place. For a queue that was empty, the batch is exactly what was
/// appended.
pub proof fn lemma_batch_keeps_append_order(pending: Seq<Command>, commands: Seq<Command>)
    ensures
        enqueue_all(pending, commands) == pending + commands,
        enqueue_all(Seq::empty(), commands) == commands,
    decreases commands.len(),
{
    if commands.len() > 0 {
        lemma_batch_keeps_append_order(pending, commands.drop_last());
        lemma_batch_keeps_append_order(Seq::empty(), commands.drop_last());
        assert(commands.drop_last().push(commands.last()) =~= commands);
        assert((pending + commands.drop_last()).push(commands.last()) =~= pending + commands);
    }
    assert(Seq::<Command>::empty() + commands =~= commands);
    assert(pending + Seq::<Command>::empty() =~= pending);
}

/// A bulk cancellation removes exactly the requests whose tag under the mask
/// is the value: every command that is left was pending before and is not
/// such a request, and the number of commands does not grow.
pub proof fn lemma_cancel_removes_matching_requests(pending: Seq<Command>, mask: u64, value: u64)
    ensures
        after_cancel(pending, mask, value).len() <= pending.len(),
        forall|i: int|
            0 <= i < after_cancel(pending, mask, value).len() ==> {
                let command = #[trigger] after_cancel(pending, mask, value)[i];
                pending.contains(command) && !command.is_cancelled_by(mask, value)
            },
        forall|i: int|
            0 <= i < pending.len() && !(#[trigger] pending[i]).is_cancelled_by(mask, value)
                ==> after_cancel(pending, mask, value).contains(pending[i]),
{
    let keep = |command: Command| !command.is_cancelled_by(mask, value);
    pending.lemma_filter_len(keep);
    assert forall|i: int| 0 <= i < pending.filter(keep).len() implies {
        let command = #[trigger] pending.filter(keep)[i];
        pending.contains(command) && !command.is_cancelled_by(mask, value)
    } by {
        pending.lemma_filter_pred(keep, i);
        pending.lemma_filter_contains_rev(keep, pending.filter(keep)[i]);
    }
    assert forall|i: int|
        0 <= i < pending.len() && !(#[trigger] pending[i]).is_cancelled_by(
            mask,
            value,
        ) implies pending.filter(keep).contains(pending[i]) by {
        pending.lemma_filter_contains(keep, i);
    }
}

} // verus!
