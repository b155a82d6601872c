//! A render worker: jobs of HTML come from a queue, a backend renders each to
//! text, and the result goes back through the queue.

pub mod automation;
pub mod job;
pub mod processor;
pub mod queue;
pub mod screenplay;
pub mod text;
