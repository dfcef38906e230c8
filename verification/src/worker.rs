use vstd::prelude::*;

use crate::channel::Request;
use crate::channel::RequestChannel;
use crate::error::DbError;
use crate::executor::ChoiceRow;

verus! {

/// The smallest number of live connections the worker's pool keeps.
pub const POOL_MIN: usize = 1;

/// The largest number of live connections the worker's pool may open.
/// Pool sizing is a fixed policy of the worker, not caller-configurable.
pub const POOL_MAX: usize = 8;

/// The worker's lifecycle: it starts, runs its loop, and on shutdown
/// drains what is still queued before stopping.
#[derive(Clone, Copy, Debug, PartialEq, Eq, Structural)]
pub enum WorkerState {
    /// The execution context and the connection pool are being built.
    Starting,
    /// The loop dequeues requests one at a time and answers each.
    Running,
    /// No producer is left; the loop still answers what is queued.
    Draining,
    /// The loop has exited.
    Stopped,
}

/// What the worker does with a request's reply slot once its query ran:
/// fulfil the slot with the rows on success, or drop it unfulfilled on
/// failure — the caller then observes the cancellation error. Either way
/// the action touches exactly the slot of the request it answers.
#[derive(Clone, Debug, PartialEq, Eq)]
pub enum ReplyAction {
    /// Deliver the rows through the named slot.
    Fulfill { slot: u64, rows: Vec<ChoiceRow> },
    /// Drop the named slot without a value.
    DropSlot { slot: u64 },
}

/// The slot a reply action touches.
pub open spec fn reply_slot(a: ReplyAction) -> u64 {
    match a {
        ReplyAction::Fulfill { slot, .. } => slot,
        ReplyAction::DropSlot { slot } => slot,
    }
}

/// The reply the worker owes for one request, given the outcome the query
/// executor produced for it. It depends on nothing but that request and
/// that outcome.
pub open spec fn reply_for(req: Request, outcome: Result<Vec<ChoiceRow>, DbError>) -> ReplyAction {
    match outcome {
        Ok(rows) => ReplyAction::Fulfill { slot: req.slot, rows },
        Err(_) => ReplyAction::DropSlot { slot: req.slot },
    }
}

/// The replies a worker produces for a batch of requests handled strictly
/// one at a time in dequeue order, given each request's executor outcome:
/// the i-th reply answers the i-th request through that request's own slot.
pub open spec fn replies_for(
    requests: Seq<Request>,
    outcomes: Seq<Result<Vec<ChoiceRow>, DbError>>,
) -> Seq<ReplyAction> {
    Seq::new(requests.len(), |i: int| reply_for(requests[i], outcomes[i]))
}

/// The single owner of the connection pool: a run-loop that pulls requests
/// off the bounded queue and answers each through that request's own slot.
pub struct Worker {
    /// Where the worker stands in its lifecycle.
    pub state: WorkerState,
    /// The consumer side of the request queue.
    pub queue: RequestChannel,
}

impl Worker {
    /// A worker about to start: empty queue, pool not yet built.
    pub fn new() -> (w: Worker)
        ensures
            w.state == WorkerState::Starting,
            w.queue@ == Seq::<Request>::empty(),
            w.queue.wf(),
    {
        Worker { state: WorkerState::Starting, queue: RequestChannel::new() }
    }

    /// The execution context and the pool are built; the loop begins.
    pub fn start(&mut self)
        requires
            old(self).state == WorkerState::Starting,
        ensures
            final(self).state == WorkerState::Running,
            final(self).queue == old(self).queue,
    {
        self.state = WorkerState::Running;
    }

    /// The loop pulls the oldest waiting request; when the queue is empty
    /// it gets nothing and suspends until a producer enqueues.
    pub fn take_next(&mut self) -> (r: Option<Request>)
        requires
            old(self).state == WorkerState::Running || old(self).state == WorkerState::Draining,
            old(self).queue.wf(),
        ensures
            final(self).state == old(self).state,
            final(self).queue.wf(),
            old(self).queue@.len() == 0 ==> r is None && final(self).queue@ == old(self).queue@,
            old(self).queue@.len() > 0 ==> {
                &&& r matches Some(req)
                &&& req == old(self).queue@[0]
                &&& final(self).queue@ == old(self).queue@.drop_first()
            },
    {
        self.queue.dequeue()
    }

    /// One loop turn's dispatch: the worker turns the executor's outcome
    /// for `req` into the reply action for exactly `req`'s own slot, and —
    /// whether the query succeeded or failed — keeps running: a request's
    /// failure never terminates the loop.
    pub fn finish(&mut self, req: &Request, outcome: Result<Vec<ChoiceRow>, DbError>) -> (a:
        ReplyAction)
        requires
            old(self).state == WorkerState::Running || old(self).state == WorkerState::Draining,
        ensures
            a == reply_for(*req, outcome),
            final(self).state == old(self).state,
            final(self).queue == old(self).queue,
    {
        match outcome {
            Ok(rows) => ReplyAction::Fulfill { slot: req.slot, rows },
            Err(_e) => ReplyAction::DropSlot { slot: req.slot },
        }
    }

    /// Every producer handle is gone: the loop stops taking new requests
    /// and answers what is still queued.
    pub fn close(&mut self)
        requires
            old(self).state == WorkerState::Running,
        ensures
            final(self).state == WorkerState::Draining,
            final(self).queue == old(self).queue,
    {
        self.state = WorkerState::Draining;
    }

    /// The drained loop exits.
    pub fn stop(&mut self)
        requires
            old(self).state == WorkerState::Draining,
            old(self).queue@.len() == 0,
        ensures
            final(self).state == WorkerState::Stopped,
            final(self).queue == old(self).queue,
    {
        self.state = WorkerState::Stopped;
    }
}

/// Answers a whole batch in dequeue order, one request at a time: one
/// reply per request, each bound to its own request's slot, fulfilled
/// exactly when that request's outcome succeeded.
pub fn process_batch(requests: &Vec<Request>, outcomes: Vec<Result<Vec<ChoiceRow>, DbError>>) -> (
    replies: Vec<ReplyAction>)
    requires
        outcomes@.len() == requests@.len(),
    ensures
        replies@ == replies_for(requests@, outcomes@),
{
    let mut outs: Vec<Result<Vec<ChoiceRow>, DbError>> = outcomes;
    let mut replies: Vec<ReplyAction> = Vec::new();
    let mut idx: usize = 0;
    while idx < requests.len()
        invariant
            idx <= requests@.len(),
            outcomes@.len() == requests@.len(),
            outs@ == outcomes@.skip(idx as int),
            replies@.len() == idx,
            forall|i: int|
                0 <= i < idx ==> replies@[i] == reply_for(requests@[i], outcomes@[i]),
        decreases requests@.len() - idx,
    {
        let outcome: Result<Vec<ChoiceRow>, DbError> = outs.remove(0);
        proof {
            assert(outcome == outcomes@[idx as int]);
            assert(outcomes@.skip(idx as int).remove(0) =~= outcomes@.skip(idx as int + 1));
        }
        let a: ReplyAction = match outcome {
            Ok(rows) => ReplyAction::Fulfill { slot: requests[idx].slot, rows },
            Err(_e) => ReplyAction::DropSlot { slot: requests[idx].slot },
        };
        replies.push(a);
        idx = idx + 1;
    }
    proof {
        assert(replies@ =~= replies_for(requests@, outcomes@));
    }
    replies
}

/// No cross-delivery: each reply in a batch is bound to its own request's
/// slot, so when two requests carry distinct slots — as the client's fresh
/// slot per call guarantees — their replies go to distinct slots, and a
/// fulfilled reply carries exactly the rows of its own request's outcome.
pub proof fn lemma_independent_replies(
    requests: Seq<Request>,
    outcomes: Seq<Result<Vec<ChoiceRow>, DbError>>,
    i: int,
    j: int,
)
    requires
        outcomes.len() == requests.len(),
        0 <= i < requests.len(),
        0 <= j < requests.len(),
        requests[i].slot != requests[j].slot,
    ensures
        reply_slot(replies_for(requests, outcomes)[i]) == requests[i].slot,
        reply_slot(replies_for(requests, outcomes)[i]) != reply_slot(replies_for(requests, outcomes)[j]),
        (outcomes[i] matches Ok(rows) ==> replies_for(requests, outcomes)[i] == (ReplyAction::Fulfill { slot: requests[i].slot, rows })),
{
}

/// Failure isolation: a request's reply depends on nothing but its own
/// request and its own outcome. In particular, however request `i`'s query
/// ended, any other request `j` is answered exactly as it would have been
/// otherwise — a failing query neither crashes the worker nor starves its
/// neighbours.
pub proof fn lemma_failure_isolated(
    requests: Seq<Request>,
    outcomes_one: Seq<Result<Vec<ChoiceRow>, DbError>>,
    outcomes_two: Seq<Result<Vec<ChoiceRow>, DbError>>,
    j: int,
)
    requires
        outcomes_one.len() == requests.len(),
        outcomes_two.len() == requests.len(),
        0 <= j < requests.len(),
        outcomes_one[j] == outcomes_two[j],
    ensures
        replies_for(requests, outcomes_one)[j] == replies_for(requests, outcomes_two)[j],
{
}

/// Startup configuration: the connection string must be present; its
/// absence is fatal before any work is accepted.
pub fn check_config(dsn: Option<String>) -> (r: Result<String, DbError>)
    ensures
        dsn matches Some(s) ==> r == Ok::<String, DbError>(s),
        dsn is None ==> (r matches Err(e) && e == DbError::Configuration),
{
    match dsn {
        Some(s) => Ok(s),
        None => Err(DbError::Configuration),
    }
}

} // verus!
