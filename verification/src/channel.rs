use vstd::prelude::*;

verus! {

/// The fixed capacity of the request queue: a small constant, not
/// caller-configurable.
pub const CHANNEL_CAPACITY: usize = 4;

/// One unit of work travelling from a caller to the worker: the query text
/// and the number of the single-use reply slot that the answer must reach.
#[derive(Clone, Debug)]
pub struct Request {
    /// The statement to run, shared text owned by this request.
    pub query: String,
    /// The identity of this request's reply slot; each request owns its
    /// slot exclusively.
    pub slot: u64,
}

/// The bounded multi-producer/single-consumer queue feeding the worker,
/// modelled by the sequence of requests it holds, oldest first. Enqueueing
/// is refused — the producer must wait — exactly when the queue is full;
/// dequeueing always takes the oldest request.
pub struct RequestChannel {
    items: Vec<Request>,
}

/// Whether contents `s` leave room for one more request.
pub open spec fn can_enqueue(s: Seq<Request>) -> bool {
    s.len() < CHANNEL_CAPACITY
}

/// The contents after a request joins the back of the queue.
pub open spec fn enqueued(s: Seq<Request>, r: Request) -> Seq<Request> {
    s.push(r)
}

/// The request the k-th dequeue (counting from zero) returns from a queue
/// whose contents are `s`, when no enqueue intervenes: dequeues return the
/// contents front to back.
pub open spec fn dequeued_at(s: Seq<Request>, k: int) -> Request
    recommends
        0 <= k < s.len(),
{
    s[k]
}

impl View for RequestChannel {
    type V = Seq<Request>;

    closed spec fn view(&self) -> Seq<Request> {
        self.items@
    }
}

impl RequestChannel {
    /// The queue never holds more than its capacity.
    pub open spec fn wf(&self) -> bool {
        self@.len() <= CHANNEL_CAPACITY
    }

    /// A fresh, empty queue.
    pub fn new() -> (c: RequestChannel)
        ensures
            c@ == Seq::<Request>::empty(),
            c.wf(),
    {
        RequestChannel { items: Vec::new() }
    }

    /// How many requests are waiting.
    pub fn len(&self) -> (n: usize)
        ensures
            n == self@.len(),
    {
        self.items.len()
    }

    /// Admits `r` at the back when there is room and says so; a full queue
    /// admits nothing and stays as it was — the producer must wait for the
    /// worker to drain a slot and offer the request again.
    pub fn try_enqueue(&mut self, r: Request) -> (ok: bool)
        requires
            old(self).wf(),
        ensures
            final(self).wf(),
            ok == can_enqueue(old(self)@),
            ok ==> final(self)@ == enqueued(old(self)@, r),
            !ok ==> final(self)@ == old(self)@,
    {
        if self.items.len() < CHANNEL_CAPACITY {
            self.items.push(r);
            true
        } else {
            false
        }
    }

    /// Hands the single consumer the oldest waiting request, none when the
    /// queue is empty.
    pub fn dequeue(&mut self) -> (r: Option<Request>)
        requires
            old(self).wf(),
        ensures
            final(self).wf(),
            old(self)@.len() == 0 ==> r is None && final(self)@ == old(self)@,
            old(self)@.len() > 0 ==> {
                &&& r matches Some(req)
                &&& req == dequeued_at(old(self)@, 0)
                &&& final(self)@ == old(self)@.drop_first()
            },
    {
        if self.items.len() == 0 {
            None
        } else {
            let req: Request = self.items.remove(0);
            proof {
                assert(old(self)@.remove(0) =~= old(self)@.drop_first());
            }
            Some(req)
        }
    }
}

/// First in, first out within a producer: after one producer enqueues `a`
/// and then `b` onto contents `s`, `a` stands at position `s.len()` and `b`
/// right behind it, and since dequeues return positions in order, `a` is
/// dequeued — and so begins execution — strictly before `b`.
pub proof fn lemma_fifo_within_producer(s: Seq<Request>, a: Request, b: Request)
    ensures
        dequeued_at(enqueued(enqueued(s, a), b), s.len() as int) == a,
        dequeued_at(enqueued(enqueued(s, a), b), s.len() as int + 1) == b,
{
}

/// Dequeues walk the contents front to back: dropping the front renumbers
/// every later position down by one, so the order of any two waiting
/// requests is preserved across a dequeue.
pub proof fn lemma_dequeue_preserves_order(s: Seq<Request>, k: int)
    requires
        1 <= k < s.len(),
    ensures
        dequeued_at(s.drop_first(), k - 1) == dequeued_at(s, k),
{
}

/// Backpressure: a full queue admits no request, so the producer waits;
/// as soon as the worker drains one slot, the waiting request is admitted.
pub proof fn lemma_backpressure(s: Seq<Request>)
    requires
        s.len() == CHANNEL_CAPACITY,
    ensures
        !can_enqueue(s),
        can_enqueue(s.drop_first()),
{
}

} // verus!
