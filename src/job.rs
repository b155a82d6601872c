use vstd::prelude::*;

verus! {

/// A unit of work: an identifier, a label, and the HTML to render.
#[derive(Debug, Clone)]
pub struct RenderJob {
    pub id: String,
    pub label: String,
    pub html: String,
}

/// The text extracted from a job's HTML, keyed by the job's identifier.
#[derive(Debug, Clone)]
pub struct RenderedJob {
    pub id: String,
    pub text_content: String,
}

/// What a [`RenderJob`] holds, as sequences of characters.
pub struct JobModel {
    pub id: Seq<char>,
    pub label: Seq<char>,
    pub html: Seq<char>,
}

/// What a [`RenderedJob`] holds, as sequences of characters.
pub struct RenderedModel {
    pub id: Seq<char>,
    pub text_content: Seq<char>,
}

impl View for RenderJob {
    type V = JobModel;

    open spec fn view(&self) -> JobModel {
        JobModel { id: self.id@, label: self.label@, html: self.html@ }
    }
}

impl View for RenderedJob {
    type V = RenderedModel;

    open spec fn view(&self) -> RenderedModel {
        RenderedModel { id: self.id@, text_content: self.text_content@ }
    }
}

impl RenderedJob {
    /// A copy of this result.
    pub fn duplicate(&self) -> (r: RenderedJob)
        ensures
            r@ == self@,
    {
        RenderedJob { id: self.id.clone(), text_content: self.text_content.clone() }
    }
}

/// Why a fetch, a render or an acknowledgement failed.
#[derive(Debug, Clone)]
pub enum WorkerError {
    /// The queue's store could not be reached, or the connection was lost.
    Redis(String),
    /// The rendering engine failed to launch, navigate, or extract content.
    Chromium(String),
    /// A stored payload did not decode into the expected shape.
    Serialization(String),
}

} // verus!
