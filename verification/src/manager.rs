//! Serving commands in order.
//!
//! One worker serves the commands of a manager, so that the table of
//! mappings changes in the order in which the commands were handed in. The
//! queue here is that order: commands go in at the end and come out at the
//! front, and once the manager is shut down every command still waiting is
//! handed back to be answered with a failure, and none is taken any more.

use vstd::prelude::*;
use crate::mapper::Request;

verus! {

/// What a manager is asked to do.
#[derive(Debug, Clone, PartialEq, Eq)]
pub enum Command {
    /// Register a mapping under a key, or renew it.
    Register { key: String, request: Request },
    /// Unregister the mappings of a key.
    Unregister { key: String },
}

/// Why a manager did not carry a command out.
#[derive(Debug, Clone, Copy, PartialEq, Eq, Structural)]
pub enum LifecycleError {
    /// The manager was shut down before the command was served.
    ShutDown,
    /// The renewal of a mapping failed too often, or its lifetime ran out.
    RenewalExhausted,
}

/// A command that waits to be served, with the ticket its answer goes to.
#[derive(Debug, Clone, PartialEq, Eq)]
pub struct Queued {
    pub ticket: u64,
    pub command: Command,
}

/// The commands that wait to be served, in the order in which they were handed in.
pub struct CommandQueue {
    pending: Vec<Queued>,
    next_ticket: u64,
    closed: bool,
}

/// What a `CommandQueue` holds.
pub struct QueueView {
    /// The commands that wait, the one to serve next first.
    pub pending: Seq<Queued>,
    /// The ticket of the next command to come.
    pub next_ticket: u64,
    /// Whether the manager was shut down.
    pub closed: bool,
}

impl View for CommandQueue {
    type V = QueueView;

    closed spec fn view(&self) -> QueueView {
        QueueView { pending: self.pending@, next_ticket: self.next_ticket, closed: self.closed }
    }
}

impl QueueView {
    /// Tickets rise along the queue and are all older than the next one, and
    /// a closed queue is empty.
    pub open spec fn wf(self) -> bool {
        &&& forall|i: int, j: int|
            0 <= i < j < self.pending.len() ==> (#[trigger] self.pending[i]).ticket < (
            #[trigger] self.pending[j]).ticket
        &&& forall|i: int|
            0 <= i < self.pending.len() ==> (#[trigger] self.pending[i]).ticket < self.next_ticket
        &&& self.closed ==> self.pending.len() == 0
    }
}

impl CommandQueue {
    #[verifier::type_invariant]
    spec fn inv(self) -> bool {
        self@.wf()
    }

    /// An empty queue that takes commands.
    pub fn new() -> (queue: CommandQueue)
        ensures
            queue@.wf(),
            queue@ == (QueueView { pending: Seq::empty(), next_ticket: 0, closed: false }),
    {
        CommandQueue { pending: Vec::new(), next_ticket: 0, closed: false }
    }

    /// How many commands wait.
    pub fn len(&self) -> (n: usize)
        ensures
            n == self@.pending.len(),
    {
        self.pending.len()
    }

    /// Whether the manager was shut down.
    pub fn is_closed(&self) -> (closed: bool)
        ensures
            closed == self@.closed,
    {
        self.closed
    }

    /// Hands a command in. It goes to the end of the queue and gets the next
    /// ticket. A queue that was shut down, or that has no ticket left to
    /// give, takes no command and says so.
    pub fn submit(&mut self, command: Command) -> (r: Result<u64, LifecycleError>)
        ensures
            final(self)@.wf(),
            if old(self)@.closed || old(self)@.next_ticket == u64::MAX {
                &&& r == Err::<u64, LifecycleError>(LifecycleError::ShutDown)
                &&& final(self)@ == old(self)@
            } else {
                &&& r == Ok::<u64, LifecycleError>(old(self)@.next_ticket)
                &&& final(self)@ == (QueueView {
                    pending: old(self)@.pending.push(
                        Queued { ticket: old(self)@.next_ticket, command },
                    ),
                    next_ticket: (old(self)@.next_ticket + 1) as u64,
                    closed: false,
                })
            },
    {
        proof {
            use_type_invariant(&*self);
        }
        if self.closed || self.next_ticket == u64::MAX {
            return Err(LifecycleError::ShutDown);
        }
        let ticket = self.next_ticket;
        let mut pending: Vec<Queued> = Vec::new();
        std::mem::swap(&mut self.pending, &mut pending);
        pending.push(Queued { ticket, command });
        self.next_ticket = ticket + 1;
        std::mem::swap(&mut self.pending, &mut pending);
        Ok(ticket)
    }

    /// Takes the command to serve next: the one that has waited longest.
    pub fn next(&mut self) -> (r: Option<Queued>)
        ensures
            final(self)@.wf(),
            if old(self)@.pending.len() == 0 {
                r is None && final(self)@ == old(self)@
            } else {
                &&& r == Some(old(self)@.pending[0])
                &&& final(self)@ == (QueueView {
                    pending: old(self)@.pending.remove(0),
                    ..old(self)@
                })
            },
    {
        proof {
            use_type_invariant(&*self);
        }
        if self.pending.len() == 0 {
            return None;
        }
        let mut pending: Vec<Queued> = Vec::new();
        std::mem::swap(&mut self.pending, &mut pending);
        let first = pending.remove(0);
        proof {
            let before = old(self)@.pending;
            let after = pending@;
            assert forall|i: int, j: int| 0 <= i < j < after.len() implies (
            #[trigger] after[i]).ticket < (#[trigger] after[j]).ticket by {
                assert(after[i] == before[i + 1] && after[j] == before[j + 1]);
            }
            assert forall|i: int| 0 <= i < after.len() implies (#[trigger] after[i]).ticket
                < self.next_ticket by {
                assert(after[i] == before[i + 1]);
            }
        }
        std::mem::swap(&mut self.pending, &mut pending);
        Some(first)
    }

    /// Shuts the manager down: hands back every command that still waits,
    /// in order, to be answered with `LifecycleError::ShutDown`, and takes
    /// no command from now on.
    pub fn shut_down(&mut self) -> (unserved: Vec<Queued>)
        ensures
            final(self)@.wf(),
            unserved@ == old(self)@.pending,
            final(self)@ == (QueueView { pending: Seq::empty(), closed: true, ..old(self)@ }),
    {
        let mut unserved: Vec<Queued> = Vec::new();
        std::mem::swap(&mut self.pending, &mut unserved);
        self.closed = true;
        unserved
    }
}

/// Commands are served in the order in which they were handed in: of two
/// commands that wait, the one handed in first has the smaller ticket and
/// stands nearer the front, and the front is what is served next.
pub proof fn lemma_served_in_order(queue: QueueView, i: int, j: int)
    requires
        queue.wf(),
        0 <= i < queue.pending.len(),
        0 <= j < queue.pending.len(),
    ensures
        queue.pending[i].ticket < queue.pending[j].ticket <==> i < j,
{
    if i < j {
        assert(queue.pending[i].ticket < queue.pending[j].ticket);
    } else if j < i {
        assert(queue.pending[j].ticket < queue.pending[i].ticket);
    }
}

} // verus!
