use worker::automation::{BrowserAutomation, FallbackBrowser};
use worker::job::{RenderJob, RenderedJob};
use worker::processor::JobProcessor;
use worker::queue::{InMemoryQueue, JobQueue};
use worker::text::{extract_text, is_space_char};

fn job(id: &str, label: &str, html: &str) -> RenderJob {
    RenderJob {
        id: id.into(),
        label: label.into(),
        html: html.into(),
    }
}

#[test]
fn fallback_browser_extracts_text() {
    let browser = FallbackBrowser::default();
    let job = job("job-1", "test", "<h1>Hello</h1><p>World</p>");

    let rendered = browser.render(&job).unwrap();
    assert!(rendered.text_content.contains("Hello"));
    assert!(rendered.text_content.contains("World"));
}

#[test]
fn processor_moves_jobs_from_queue_to_results() {
    let mut queue = InMemoryQueue::default();
    queue.push(job("abc", "demo", "<div>content</div>"));

    let mut processor = JobProcessor::new(queue, FallbackBrowser::default());
    processor.process_once().unwrap();

    let results = processor.queue().results();
    assert_eq!(results.len(), 1);
    assert_eq!(results[0].id, "abc");
}

#[test]
fn adjacent_tags_put_no_space_between_words() {
    // A dropped tag leaves nothing behind, so only whitespace in the text separates words.
    assert_eq!(extract_text("<h1>Hello</h1><p>World</p>"), "HelloWorld");
    assert_eq!(extract_text("<h1>Hello</h1> <p>World</p>"), "Hello World");
}

#[test]
fn plain_text_is_trimmed_and_collapsed() {
    assert_eq!(extract_text("  alpha \t\n  beta   gamma  "), "alpha beta gamma");
    assert_eq!(extract_text("word"), "word");
    assert_eq!(extract_text(""), "");
    assert_eq!(extract_text(" \n\t "), "");
}

#[test]
fn unicode_whitespace_is_collapsed() {
    assert_eq!(extract_text("\u{3000}x\u{A0}\u{2003}y\u{85}"), "x y");
    assert!(is_space_char('\u{2028}'));
    assert!(is_space_char('\u{0B}'));
    assert!(!is_space_char('\u{200B}'));
    assert!(!is_space_char('a'));
}

#[test]
fn tags_and_their_contents_are_dropped() {
    assert_eq!(extract_text("<p class=\"x y\">a</p>"), "a");
    assert_eq!(extract_text("<br/><hr>"), "");
    assert_eq!(extract_text("before<unclosed tag"), "before");
    assert_eq!(extract_text("a > b"), "a b");
    assert_eq!(extract_text("x <b> </b> y"), "x y");
    assert_eq!(extract_text("&amp; <i>kept</i>"), "&amp; kept");
}

#[test]
fn extraction_is_repeatable() {
    let html = "<div> one  <span>two</span>\nthree </div>";
    let first = extract_text(html);
    let second = extract_text(html);
    assert_eq!(first, second);
    assert_eq!(first, "one two three");
}

#[test]
fn in_memory_queue_is_fifo() {
    let mut queue = InMemoryQueue::new();
    queue.push(job("1", "a", "<p>1</p>"));
    queue.push(job("2", "b", "<p>2</p>"));
    queue.push(job("3", "c", "<p>3</p>"));
    assert_eq!(queue.pending_count(), 3);
    assert_eq!(queue.next_job().unwrap().id, "1");
    assert_eq!(queue.next_job().unwrap().id, "2");
    assert_eq!(queue.next_job().unwrap().id, "3");
    assert_eq!(queue.pending_count(), 0);
}

#[test]
fn acknowledge_appends_exactly_one_result() {
    let mut queue = InMemoryQueue::new();
    assert!(queue.results().is_empty());
    let first = RenderedJob {
        id: "r1".into(),
        text_content: "one".into(),
    };
    queue.acknowledge(first).unwrap();
    let results = queue.results();
    assert_eq!(results.len(), 1);
    assert_eq!(results[0].id, "r1");
    assert_eq!(results[0].text_content, "one");

    let again = RenderedJob {
        id: "r1".into(),
        text_content: "one".into(),
    };
    queue.acknowledge(again).unwrap();
    let results = queue.results();
    assert_eq!(results.len(), 2);
    assert_eq!(results[1].id, "r1");
}

#[test]
fn one_cycle_with_fallback_stores_extracted_text() {
    let mut queue = InMemoryQueue::default();
    queue.push(job("abc", "demo", "<div>content</div>"));
    let mut processor = JobProcessor::new(queue, FallbackBrowser::default());
    processor.process_once().unwrap();

    let results = processor.queue().results();
    assert_eq!(results.len(), 1);
    assert_eq!(results[0].id, "abc");
    assert_eq!(results[0].text_content, "content");
    assert_eq!(processor.queue().pending_count(), 0);
}

#[test]
fn cycles_follow_push_order() {
    let mut queue = InMemoryQueue::new();
    queue.push(job("first", "", "<b>one</b>"));
    queue.push(job("second", "", "two"));
    let mut processor = JobProcessor::new(queue, FallbackBrowser);
    processor.process_once().unwrap();
    processor.process_once().unwrap();
    let results = processor.queue().results();
    assert_eq!(results.len(), 2);
    assert_eq!(results[0].id, "first");
    assert_eq!(results[0].text_content, "one");
    assert_eq!(results[1].id, "second");
    assert_eq!(results[1].text_content, "two");
}

#[test]
fn rendered_copy_keeps_fields() {
    let source = job("id-7", "label", "<p>x</p>");
    let rendered = FallbackBrowser.render(&source).unwrap().duplicate();
    assert_eq!(rendered.id, "id-7");
    assert_eq!(rendered.text_content, "x");
}
