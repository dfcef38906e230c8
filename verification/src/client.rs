use vstd::prelude::*;

use crate::channel::Request;
use crate::error::DbError;
use crate::executor::ChoiceRow;
use crate::worker::reply_for;
use crate::worker::ReplyAction;

verus! {

/// The caller-facing handle. Each call builds one request with a fresh
/// reply slot; slot numbers strictly increase and are never reused by the
/// same handle, so every in-flight request of a handle owns a distinct
/// slot and no reply can reach the wrong caller.
pub struct Client {
    next_slot: u64,
}

impl Client {
    /// The slot number the next request of this handle will receive.
    pub closed spec fn next_slot(&self) -> u64 {
        self.next_slot
    }

    /// A fresh handle, about to hand out its first slot.
    pub fn new() -> (c: Client)
        ensures
            c.next_slot() == 0,
    {
        Client { next_slot: 0 }
    }

    /// Builds the request for one call: the query text together with a
    /// reply slot this handle has never used before and will never use
    /// again.
    pub fn make_request(&mut self, query: String) -> (r: Request)
        requires
            old(self).next_slot() < u64::MAX,
        ensures
            r.slot == old(self).next_slot(),
            r.query@ == query@,
            final(self).next_slot() == old(self).next_slot() + 1,
    {
        let slot: u64 = self.next_slot;
        self.next_slot = self.next_slot + 1;
        Request { query, slot }
    }
}

/// What a reply slot hands its caller: the rows of a fulfilment, nothing
/// when the worker dropped the slot.
pub open spec fn delivered(a: ReplyAction) -> Option<Vec<ChoiceRow>> {
    match a {
        ReplyAction::Fulfill { rows, .. } => Some(rows),
        ReplyAction::DropSlot { .. } => None,
    }
}

/// The result a caller observes once its wait on the slot ends: a
/// delivered row set is the call's success; a slot dropped without a
/// value surfaces as the cancellation error.
pub open spec fn observed(received: Option<Vec<ChoiceRow>>) -> Result<Vec<ChoiceRow>, DbError> {
    match received {
        Some(rows) => Ok(rows),
        None => Err(DbError::ReplyCancelled),
    }
}

/// How a caller reads its reply slot once the wait ends.
pub fn reply_outcome(received: Option<Vec<ChoiceRow>>) -> (r: Result<Vec<ChoiceRow>, DbError>)
    ensures
        r == observed(received),
{
    match received {
        Some(rows) => Ok(rows),
        None => Err(DbError::ReplyCancelled),
    }
}

/// How a per-request failure crosses the worker/caller boundary: a caller
/// whose query succeeded worker-side observes exactly the rows of its own
/// request's outcome; one whose query failed observes the cancellation
/// error — the slot carries no error payload, so the worker-side error
/// value itself never travels.
pub proof fn lemma_worker_to_caller(req: Request, outcome: Result<Vec<ChoiceRow>, DbError>)
    ensures
        (outcome matches Ok(rows) ==> observed(delivered(reply_for(req, outcome)))
            == Ok::<Vec<ChoiceRow>, DbError>(rows)),
        (outcome is Err ==> observed(delivered(reply_for(req, outcome)))
            == Err::<Vec<ChoiceRow>, DbError>(DbError::ReplyCancelled)),
{
}

} // verus!
