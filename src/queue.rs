use std::collections::VecDeque;
use vstd::prelude::*;

use crate::job::{JobModel, RenderJob, RenderedJob, RenderedModel, WorkerError};

verus! {

/// A source of jobs and a sink for their results.
///
/// Where the stores are held by the value alone (`owns_stores`), the contracts
/// say exactly what each call does to them. Where other parties share them (a
/// broker), entries come and go between calls, and only the shape of the calls
/// is stated.
pub trait JobQueue {
    /// The jobs awaiting processing, oldest first. Nothing is known of them
    /// unless the implementation says so.
    open spec fn pending(&self) -> Seq<JobModel> {
        Seq::empty()
    }

    /// The results acknowledged so far, oldest first. Nothing is known of them
    /// unless the implementation says so.
    open spec fn acknowledged(&self) -> Seq<RenderedModel> {
        Seq::empty()
    }

    /// Whether both stores are held by this value alone; by default they are shared.
    open spec fn owns_stores(&self) -> bool {
        false
    }

    /// Removes and returns the oldest pending job. A queue whose stores are
    /// shared waits until a job arrives; one that holds them alone is only
    /// asked for a job when one is pending, since none could arrive while it waits.
    fn next_job(&mut self) -> (r: Result<RenderJob, WorkerError>)
        requires
            !old(self).owns_stores() || old(self).pending().len() > 0,
        ensures
            final(self).owns_stores() == old(self).owns_stores(),
            old(self).owns_stores() ==> {
                &&& r is Ok
                &&& r->Ok_0@ == old(self).pending()[0]
                &&& final(self).pending() == old(self).pending().drop_first()
                &&& final(self).acknowledged() == old(self).acknowledged()
            },
    ;

    /// Appends `result` to the result store. Not idempotent: the same result
    /// acknowledged twice is stored twice.
    fn acknowledge(&mut self, result: RenderedJob) -> (r: Result<(), WorkerError>)
        ensures
            final(self).owns_stores() == old(self).owns_stores(),
            old(self).owns_stores() ==> {
                &&& r is Ok
                &&& final(self).pending() == old(self).pending()
                &&& final(self).acknowledged() == old(self).acknowledged().push(result@)
            },
    ;
}

/// A queue held in memory, for standalone use and tests.
pub struct InMemoryQueue {
    jobs: VecDeque<RenderJob>,
    results: Vec<RenderedJob>,
}

impl JobQueue for InMemoryQueue {
    closed spec fn pending(&self) -> Seq<JobModel> {
        self.jobs@.map_values(|j: RenderJob| j@)
    }

    closed spec fn acknowledged(&self) -> Seq<RenderedModel> {
        self.results@.map_values(|r: RenderedJob| r@)
    }

    open spec fn owns_stores(&self) -> bool {
        true
    }

    fn next_job(&mut self) -> (r: Result<RenderJob, WorkerError>) {
        let job = self.jobs.pop_front();
        proof {
            assert(self.pending() == old(self).pending().drop_first());
        }
        match job {
            Some(j) => Ok(j),
            // The precondition leaves no way here: a job is pending.
            None => Err(WorkerError::Redis(String::new())),
        }
    }

    fn acknowledge(&mut self, result: RenderedJob) -> (r: Result<(), WorkerError>) {
        self.results.push(result);
        proof {
            assert(self.acknowledged() == old(self).acknowledged().push(result@));
        }
        Ok(())
    }
}

impl InMemoryQueue {
    /// An empty queue.
    pub fn new() -> (r: InMemoryQueue)
        ensures
            r.pending() == Seq::<JobModel>::empty(),
            r.acknowledged() == Seq::<RenderedModel>::empty(),
    {
        let r = InMemoryQueue { jobs: VecDeque::new(), results: Vec::new() };
        proof {
            assert(r.pending() == Seq::<JobModel>::empty());
            assert(r.acknowledged() == Seq::<RenderedModel>::empty());
        }
        r
    }

    /// Adds `job` at the back of the pending store.
    pub fn push(&mut self, job: RenderJob)
        ensures
            final(self).pending() == old(self).pending().push(job@),
            final(self).acknowledged() == old(self).acknowledged(),
    {
        self.jobs.push_back(job);
        proof {
            assert(self.pending() == old(self).pending().push(job@));
        }
    }

    /// A copy of every result acknowledged so far, oldest first.
    pub fn results(&self) -> (r: Vec<RenderedJob>)
        ensures
            r@.map_values(|x: RenderedJob| x@) == self.acknowledged(),
    {
        let mut out: Vec<RenderedJob> = Vec::new();
        let mut i: usize = 0;
        while i < self.results.len()
            invariant
                i <= self.results.len(),
                out@.map_values(|x: RenderedJob| x@) == self.acknowledged().take(i as int),
            decreases self.results.len() - i,
        {
            out.push(self.results[i].duplicate());
            proof {
                assert(self.acknowledged().take(i + 1) == self.acknowledged().take(
                    i as int,
                ).push(self.results@[i as int]@));
            }
            i = i + 1;
        }
        proof {
            assert(self.acknowledged().take(i as int) == self.acknowledged());
        }
        out
    }

    /// The number of pending jobs.
    pub fn pending_count(&self) -> (r: usize)
        ensures
            r == self.pending().len(),
    {
        self.jobs.len()
    }
}

impl Default for InMemoryQueue {
    fn default() -> (r: InMemoryQueue)
        ensures
            r.pending() == Seq::<JobModel>::empty(),
            r.acknowledged() == Seq::<RenderedModel>::empty(),
    {
        InMemoryQueue::new()
    }
}

/// The pending store after each job of `js` is pushed onto `p`, in order.
pub open spec fn pushed_in_order(p: Seq<JobModel>, js: Seq<JobModel>) -> Seq<JobModel>
    decreases js.len(),
{
    if js.len() == 0 {
        p
    } else {
        pushed_in_order(p, js.drop_last()).push(js.last())
    }
}

/// The pending store after `n` fetches from `p`.
pub open spec fn after_fetches(p: Seq<JobModel>, n: nat) -> Seq<JobModel>
    decreases n,
{
    if n == 0 {
        p
    } else {
        after_fetches(p.drop_first(), (n - 1) as nat)
    }
}

proof fn lemma_pushed_onto_empty(js: Seq<JobModel>)
    ensures
        pushed_in_order(Seq::empty(), js) == js,
    decreases js.len(),
{
    if js.len() > 0 {
        lemma_pushed_onto_empty(js.drop_last());
        assert(js.drop_last().push(js.last()) == js);
    }
}

proof fn lemma_after_fetches(p: Seq<JobModel>, n: nat)
    requires
        n <= p.len(),
    ensures
        after_fetches(p, n) == p.skip(n as int),
    decreases n,
{
    if n > 0 {
        lemma_after_fetches(p.drop_first(), (n - 1) as nat);
        assert(p.drop_first().skip(n - 1) == p.skip(n as int));
    }
}

/// Jobs leave in the order they came: after jobs `js` are pushed onto an empty
/// store, the job at the front after `n` fetches is the `n`-th one pushed.
pub proof fn lemma_fifo_order(js: Seq<JobModel>, n: nat)
    requires
        n < js.len(),
    ensures
        after_fetches(pushed_in_order(Seq::empty(), js), n).len() == js.len() - n,
        after_fetches(pushed_in_order(Seq::empty(), js), n)[0] == js[n as int],
{
    lemma_pushed_onto_empty(js);
    lemma_after_fetches(js, n);
}

} // verus!
