use vstd::prelude::*;

use crate::automation::BrowserAutomation;
use crate::job::WorkerError;
use crate::queue::JobQueue;

verus! {

/// Takes jobs from a queue, renders them with a backend, and acknowledges the results.
pub struct JobProcessor<Q: JobQueue, B: BrowserAutomation> {
    queue: Q,
    browser: B,
}

impl<Q: JobQueue, B: BrowserAutomation> JobProcessor<Q, B> {
    /// The queue that this processor reads and writes.
    pub closed spec fn queue_state(&self) -> Q {
        self.queue
    }

    /// The backend that this processor renders with.
    pub closed spec fn browser_state(&self) -> B {
        self.browser
    }

    /// A processor over `queue` and `browser`.
    pub fn new(queue: Q, browser: B) -> (r: Self)
        ensures
            r.queue_state() == queue,
            r.browser_state() == browser,
    {
        JobProcessor { queue, browser }
    }

    /// Runs one cycle: fetches a job, renders it, acknowledges the result.
    /// The first failure is returned as it is, with no retry; a job fetched
    /// before a failure is not put back.
    pub fn process_once(&mut self) -> (r: Result<(), WorkerError>)
        requires
            !old(self).queue_state().owns_stores() || old(self).queue_state().pending().len() > 0,
        ensures
            final(self).browser_state() == old(self).browser_state(),
            final(self).queue_state().owns_stores() == old(self).queue_state().owns_stores(),
            old(self).queue_state().owns_stores() ==> {
                let before = old(self).queue_state();
                let after = final(self).queue_state();
                let job = before.pending()[0];
                &&& after.pending() == before.pending().drop_first()
                &&& r is Ok ==> {
                    &&& after.acknowledged().len() == before.acknowledged().len() + 1
                    &&& after.acknowledged().drop_last() == before.acknowledged()
                    &&& after.acknowledged().last().id == job.id
                    &&& old(self).browser_state().renders(
                        job.html,
                        after.acknowledged().last().text_content,
                    )
                }
                &&& r is Err ==> after.acknowledged() == before.acknowledged()
                &&& old(self).browser_state().infallible() ==> r is Ok
            },
    {
        let job = match self.queue.next_job() {
            Ok(job) => job,
            Err(e) => return Err(e),
        };
        let result = match self.browser.render(&job) {
            Ok(result) => result,
            Err(e) => return Err(e),
        };
        let ghost acked = self.queue.acknowledged();
        let r = self.queue.acknowledge(result);
        proof {
            if self.queue.owns_stores() {
                assert(self.queue.acknowledged().drop_last() == acked);
            }
        }
        r
    }

    /// The queue that this processor reads and writes.
    pub fn queue(&self) -> (r: &Q)
        ensures
            *r == self.queue_state(),
    {
        &self.queue
    }

    /// The backend that this processor renders with.
    pub fn browser(&self) -> (r: &B)
        ensures
            *r == self.browser_state(),
    {
        &self.browser
    }
}

} // verus!
