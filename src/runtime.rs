//! The decisions of the dispatcher that confines engine calls to one thread:
//! its lifecycle, and the FIFO queue of submitted commands, each named by a
//! ticket. The thread that runs the commands asks for the next ticket and
//! runs the command filed under it.
use vstd::prelude::*;

use crate::ObsError;

verus! {

/// Lifecycle of the dispatcher.
#[derive(Debug, Clone, Copy, PartialEq, Eq, Structural)]
pub enum RuntimeState {
    Uninitialized,
    Starting,
    Running,
    ShuttingDown,
    Terminated,
}

/// `s` is strictly increasing.
pub open spec fn strictly_increasing(s: Seq<u64>) -> bool {
    forall|i: int, j: int| 0 <= i < j < s.len() ==> s[i] < s[j]
}

/// The dispatcher's state: lifecycle, queued tickets, next ticket to hand out.
pub struct ObsRuntime {
    state: RuntimeState,
    queue: Vec<u64>,
    next_ticket: u64,
}

impl ObsRuntime {
    pub closed spec fn state_spec(&self) -> RuntimeState {
        self.state
    }

    /// Tickets of the commands submitted and not yet run, oldest first.
    pub closed spec fn pending(&self) -> Seq<u64> {
        self.queue@
    }

    pub closed spec fn next_ticket_spec(&self) -> u64 {
        self.next_ticket
    }

    /// Tickets are handed out in increasing order, and each queued one was
    /// handed out already.
    pub open spec fn wf(&self) -> bool {
        &&& strictly_increasing(self.pending())
        &&& forall|i: int| 0 <= i < self.pending().len() ==> #[trigger] self.pending()[i] < self.next_ticket_spec()
    }

    /// Commands are accepted in this state only.
    pub open spec fn accepts(&self) -> bool {
        self.state_spec() == RuntimeState::Running
    }

    /// Commands are handed to the engine thread in these states only.
    pub open spec fn serves(&self) -> bool {
        self.state_spec() == RuntimeState::Running || self.state_spec() == RuntimeState::ShuttingDown
    }

    pub fn new() -> (r: ObsRuntime)
        ensures
            r.wf(),
            r.state_spec() == RuntimeState::Uninitialized,
            r.pending() == Seq::<u64>::empty(),
            r.next_ticket_spec() == 0,
    {
        ObsRuntime { state: RuntimeState::Uninitialized, queue: Vec::new(), next_ticket: 0 }
    }

    pub fn state(&self) -> (r: RuntimeState)
        ensures
            r == self.state_spec(),
    {
        self.state
    }

    pub fn next_ticket(&self) -> (r: u64)
        ensures
            r == self.next_ticket_spec(),
    {
        self.next_ticket
    }

    /// Number of queued commands.
    pub fn pending_len(&self) -> (r: usize)
        ensures
            r == self.pending().len(),
    {
        self.queue.len()
    }

    /// Begins starting the engine. Only an uninitialized dispatcher starts;
    /// any later call is refused with `false` and changes nothing.
    pub fn start(&mut self) -> (r: bool)
        ensures
            r == (old(self).state_spec() == RuntimeState::Uninitialized),
            final(self).state_spec() == (if r { RuntimeState::Starting } else { old(self).state_spec() }),
            final(self).pending() == old(self).pending(),
            final(self).next_ticket_spec() == old(self).next_ticket_spec(),
    {
        match self.state {
            RuntimeState::Uninitialized => {
                self.state = RuntimeState::Starting;
                true
            },
            _ => false,
        }
    }

    /// Records how the engine's initialization on its own thread ended: the
    /// dispatcher runs, or it is unusable for good.
    pub fn finish_start(&mut self, initialized: bool)
        ensures
            final(self).state_spec() == (if old(self).state_spec() == RuntimeState::Starting {
                if initialized { RuntimeState::Running } else { RuntimeState::Terminated }
            } else {
                old(self).state_spec()
            }),
            final(self).pending() == old(self).pending(),
            final(self).next_ticket_spec() == old(self).next_ticket_spec(),
    {
        match self.state {
            RuntimeState::Starting => {
                self.state = if initialized { RuntimeState::Running } else { RuntimeState::Terminated };
            },
            _ => {},
        }
    }

    /// Queues a command and returns its ticket; only a running dispatcher
    /// accepts one.
    pub fn submit(&mut self) -> (r: Result<u64, ObsError>)
        requires
            old(self).wf(),
            old(self).next_ticket_spec() < u64::MAX,
        ensures
            final(self).wf(),
            final(self).state_spec() == old(self).state_spec(),
            old(self).accepts() ==> {
                &&& r == Ok::<u64, ObsError>(old(self).next_ticket_spec())
                &&& final(self).pending() == old(self).pending().push(old(self).next_ticket_spec())
                &&& final(self).next_ticket_spec() == old(self).next_ticket_spec() + 1
            },
            !old(self).accepts() ==> {
                &&& r == Err::<u64, ObsError>(ObsError::RuntimeUnavailable)
                &&& final(self).pending() == old(self).pending()
                &&& final(self).next_ticket_spec() == old(self).next_ticket_spec()
            },
    {
        match self.state {
            RuntimeState::Running => {
                let t = self.next_ticket;
                self.queue.push(t);
                self.next_ticket = t + 1;
                Ok(t)
            },
            _ => Err(ObsError::RuntimeUnavailable),
        }
    }

    /// The ticket of the command to run next: the oldest one queued, while
    /// the dispatcher serves.
    pub fn next_command(&mut self) -> (r: Option<u64>)
        requires
            old(self).wf(),
        ensures
            final(self).wf(),
            final(self).state_spec() == old(self).state_spec(),
            final(self).next_ticket_spec() == old(self).next_ticket_spec(),
            old(self).serves() && old(self).pending().len() > 0 ==> {
                &&& r == Some(old(self).pending()[0])
                &&& final(self).pending() == old(self).pending().drop_first()
            },
            !(old(self).serves() && old(self).pending().len() > 0) ==> {
                &&& r is None
                &&& final(self).pending() == old(self).pending()
            },
    {
        let serving = match self.state {
            RuntimeState::Running => true,
            RuntimeState::ShuttingDown => true,
            _ => false,
        };
        if serving && self.queue.len() > 0 {
            let t = self.queue.remove(0);
            assert(self.queue@ =~= old(self).queue@.drop_first());
            Some(t)
        } else {
            None
        }
    }

    /// Stops accepting commands; those queued may still be served until
    /// `terminate`.
    pub fn shutdown(&mut self)
        ensures
            final(self).state_spec() == (if old(self).state_spec() == RuntimeState::Terminated {
                RuntimeState::Terminated
            } else {
                RuntimeState::ShuttingDown
            }),
            final(self).pending() == old(self).pending(),
            final(self).next_ticket_spec() == old(self).next_ticket_spec(),
    {
        match self.state {
            RuntimeState::Terminated => {},
            _ => {
                self.state = RuntimeState::ShuttingDown;
            },
        }
    }

    /// Ends the dispatcher. The tickets of the commands that never ran come
    /// back, oldest first: each resolves with `ObsError::Cancelled`.
    pub fn terminate(&mut self) -> (cancelled: Vec<u64>)
        requires
            old(self).wf(),
        ensures
            final(self).wf(),
            cancelled@ == old(self).pending(),
            final(self).state_spec() == RuntimeState::Terminated,
            final(self).pending() == Seq::<u64>::empty(),
            final(self).next_ticket_spec() == old(self).next_ticket_spec(),
    {
        self.state = RuntimeState::Terminated;
        let mut cancelled: Vec<u64> = Vec::new();
        std::mem::swap(&mut cancelled, &mut self.queue);
        cancelled
    }
}

/// Commands run in the order they were submitted: of two queued commands,
/// the one submitted first (the smaller ticket) stands nearer the front, so
/// each caller sees its own commands run, and their results come, in the
/// order it submitted them, however other callers' commands interleave.
pub proof fn lemma_submission_order(rt: ObsRuntime, i: int, j: int)
    requires
        rt.wf(),
        0 <= i < rt.pending().len(),
        0 <= j < rt.pending().len(),
        rt.pending()[i] < rt.pending()[j],
    ensures
        i < j,
{
    if j < i {
        assert(rt.pending()[j] < rt.pending()[i]);
    }
}

/// A command submitted to a running dispatcher that is shut down before the
/// command runs is still queued, so `terminate` hands its ticket back among
/// the cancelled ones, and the dispatcher accepts nothing after the shutdown.
pub proof fn lemma_shutdown_cancels(rt: ObsRuntime, submitted: ObsRuntime, stopped: ObsRuntime)
    requires
        rt.wf(),
        rt.accepts(),
        submitted.pending() == rt.pending().push(rt.next_ticket_spec()),
        stopped.pending() == submitted.pending(),
        stopped.state_spec() == RuntimeState::ShuttingDown,
    ensures
        stopped.pending().contains(rt.next_ticket_spec()),
        !stopped.accepts(),
{
    assert(stopped.pending()[rt.pending().len() as int] == rt.next_ticket_spec());
}

} // verus!
