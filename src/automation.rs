use vstd::prelude::*;

use crate::job::{RenderJob, RenderedJob, RenderedModel, WorkerError};
use crate::text::{extract_text, extracted_text};

verus! {

/// A backend that renders a job's HTML to text.
pub trait BrowserAutomation {
    /// Whether `text` is a text that this backend may give for `html`; by
    /// default any text may come back.
    open spec fn renders(&self, html: Seq<char>, text: Seq<char>) -> bool {
        true
    }

    /// Whether `render` always succeeds; by default it may fail.
    open spec fn infallible(&self) -> bool {
        false
    }

    /// Renders `job`; the result carries the job's identifier.
    fn render(&self, job: &RenderJob) -> (r: Result<RenderedJob, WorkerError>)
        ensures
            r is Ok ==> r->Ok_0.id@ == job.id@ && self.renders(
                job.html@,
                r->Ok_0.text_content@,
            ),
            self.infallible() ==> r is Ok,
    ;
}

/// A renderer that needs no browser: it strips tags from the HTML.
#[derive(Default, Debug, Clone, Copy)]
pub struct FallbackBrowser;

impl BrowserAutomation for FallbackBrowser {
    open spec fn renders(&self, html: Seq<char>, text: Seq<char>) -> bool {
        text == extracted_text(html)
    }

    open spec fn infallible(&self) -> bool {
        true
    }

    fn render(&self, job: &RenderJob) -> (r: Result<RenderedJob, WorkerError>)
        ensures
            r matches Ok(out) && out@ == (RenderedModel {
                id: job.id@,
                text_content: extracted_text(job.html@),
            }),
    {
        let text = extract_text(job.html.as_str());
        Ok(RenderedJob { id: job.id.clone(), text_content: text })
    }
}

} // verus!
