use vstd::prelude::*;

verus! {

/// Unicode `White_Space`: the characters that `char::is_whitespace` accepts.
pub open spec fn is_space(c: char) -> bool {
    ||| c == '\t' || c == '\n' || c == '\u{0B}' || c == '\u{0C}' || c == '\r' || c == ' '
    ||| c == '\u{85}' || c == '\u{A0}' || c == '\u{1680}'
    ||| ('\u{2000}' <= c && c <= '\u{200A}')
    ||| c == '\u{2028}' || c == '\u{2029}' || c == '\u{202F}' || c == '\u{205F}'
    ||| c == '\u{3000}'
}

/// Whether a left-to-right scan over `s` ends inside a tag: the last
/// angle bracket of `s`, if any, is `<`.
pub open spec fn ends_in_tag(s: Seq<char>) -> bool
    decreases s.len(),
{
    if s.len() == 0 {
        false
    } else if s.last() == '<' {
        true
    } else if s.last() == '>' {
        false
    } else {
        ends_in_tag(s.drop_last())
    }
}

/// The characters of `s` that stand outside tags; the brackets themselves are dropped.
pub open spec fn outside_tags(s: Seq<char>) -> Seq<char>
    decreases s.len(),
{
    if s.len() == 0 {
        Seq::empty()
    } else {
        let p = s.drop_last();
        let c = s.last();
        if c == '<' || c == '>' || ends_in_tag(p) {
            outside_tags(p)
        } else {
            outside_tags(p).push(c)
        }
    }
}

/// `s` with every maximal run of whitespace replaced by one space.
pub open spec fn collapse_spaces(s: Seq<char>) -> Seq<char>
    decreases s.len(),
{
    if s.len() == 0 {
        Seq::empty()
    } else {
        let p = s.drop_last();
        let c = s.last();
        if !is_space(c) {
            collapse_spaces(p).push(c)
        } else if p.len() > 0 && is_space(p.last()) {
            collapse_spaces(p)
        } else {
            collapse_spaces(p).push(' ')
        }
    }
}

/// `s` without its leading whitespace.
pub open spec fn trim_start(s: Seq<char>) -> Seq<char>
    decreases s.len(),
{
    if s.len() > 0 && is_space(s[0]) {
        trim_start(s.drop_first())
    } else {
        s
    }
}

/// `s` without its trailing whitespace.
pub open spec fn trim_end(s: Seq<char>) -> Seq<char>
    decreases s.len(),
{
    if s.len() > 0 && is_space(s.last()) {
        trim_end(s.drop_last())
    } else {
        s
    }
}

/// `s` without leading or trailing whitespace.
pub open spec fn trim(s: Seq<char>) -> Seq<char> {
    trim_end(trim_start(s))
}

/// The text that the fallback renderer extracts from `html`.
pub open spec fn extracted_text(html: Seq<char>) -> Seq<char> {
    trim(collapse_spaces(outside_tags(html)))
}

/// Whether `c` is whitespace, as `char::is_whitespace` decides it.
pub fn is_space_char(c: char) -> (r: bool)
    ensures
        r == is_space(c),
{
    c == '\t' || c == '\n' || c == '\u{0B}' || c == '\u{0C}' || c == '\r' || c == ' '
        || c == '\u{85}' || c == '\u{A0}' || c == '\u{1680}' || ('\u{2000}' <= c && c
        <= '\u{200A}') || c == '\u{2028}' || c == '\u{2029}' || c == '\u{202F}' || c
        == '\u{205F}' || c == '\u{3000}'
}

/// Relies on `String::push`: the character is appended at the end.
#[verifier::external_body]
fn push_char(s: &mut String, c: char)
    ensures
        final(s)@ == old(s)@.push(c),
{
    s.push(c)
}


/// Strips tags from `html`: characters between `<` and `>` are dropped with the
/// brackets, every whitespace run that remains becomes one space, and the ends
/// are trimmed.
pub fn extract_text(html: &str) -> (r: String)
    ensures
        r@ == extracted_text(html@),
{
    broadcast use vstd::string::axiom_spec_iter;

    let mut kept: Vec<char> = Vec::new();
    let mut in_tag = false;
    let mut previous_was_space = false;
    for ch in it: html.chars()
        invariant
            it.seq() == html@,
            in_tag == ends_in_tag(html@.subrange(0, it.index())),
            kept@ == collapse_spaces(outside_tags(html@.subrange(0, it.index()))),
            previous_was_space == (outside_tags(html@.subrange(0, it.index())).len() > 0
                && is_space(outside_tags(html@.subrange(0, it.index())).last())),
    {
        let ghost pre = html@.subrange(0, it.index());
        proof {
            assert(html@.subrange(0, it.index() + 1).drop_last() == pre);
            assert(html@.subrange(0, it.index() + 1).last() == ch);
            let v = outside_tags(pre);
            assert(v.push(ch).drop_last() == v);
            assert(v.push(' ').drop_last() == v);
        }
        if ch == '<' {
            in_tag = true;
        } else if ch == '>' {
            in_tag = false;
        } else if !in_tag {
            if is_space_char(ch) {
                if !previous_was_space {
                    previous_was_space = true;
                    kept.push(' ');
                }
            } else {
                previous_was_space = false;
                kept.push(ch);
            }
        }
    }
    proof {
        assert(html@.subrange(0, html@.len() as int) == html@);
    }
    let ghost s = kept@;
    let n = kept.len();
    proof {
        assert(s.subrange(0, n as int) == s);
    }
    let mut start: usize = 0;
    while start < n && is_space_char(kept[start])
        invariant
            start <= n == s.len(),
            kept@ == s,
            trim_start(s.subrange(start as int, n as int)) == trim_start(s),
        decreases n - start,
    {
        proof {
            assert(s.subrange(start as int, n as int).drop_first() == s.subrange(
                start + 1,
                n as int,
            ));
        }
        start = start + 1;
    }
    let mut end: usize = n;
    while end > start && is_space_char(kept[end - 1])
        invariant
            start <= end <= n == s.len(),
            kept@ == s,
            trim_end(s.subrange(start as int, end as int)) == trim_end(
                s.subrange(start as int, n as int),
            ),
        decreases end - start,
    {
        proof {
            assert(s.subrange(start as int, end as int).drop_last() == s.subrange(
                start as int,
                end - 1,
            ));
        }
        end = end - 1;
    }
    let mut r = String::new();
    let mut i: usize = start;
    while i < end
        invariant
            start <= i <= end <= n == s.len(),
            kept@ == s,
            r@ == s.subrange(start as int, i as int),
        decreases end - i,
    {
        push_char(&mut r, kept[i]);
        proof {
            assert(s.subrange(start as int, i + 1) == s.subrange(start as int, i as int).push(
                s[i as int],
            ));
        }
        i = i + 1;
    }
    r
}


proof fn lemma_no_brackets(s: Seq<char>)
    requires
        forall|i: int| 0 <= i < s.len() ==> s[i] != '<' && s[i] != '>',
    ensures
        outside_tags(s) == s,
        !ends_in_tag(s),
    decreases s.len(),
{
    if s.len() > 0 {
        let p = s.drop_last();
        assert forall|i: int| 0 <= i < p.len() implies p[i] != '<' && p[i] != '>' by {
            assert(p[i] == s[i]);
        }
        lemma_no_brackets(p);
        assert(p.push(s.last()) == s);
    }
}

/// Text without angle brackets loses nothing but whitespace: extraction gives
/// the text with each whitespace run collapsed to one space, trimmed at both ends.
pub proof fn lemma_plain_text_extraction(s: Seq<char>)
    requires
        forall|i: int| 0 <= i < s.len() ==> s[i] != '<' && s[i] != '>',
    ensures
        extracted_text(s) == trim(collapse_spaces(s)),
{
    lemma_no_brackets(s);
}

/// Extraction depends on its input alone: equal inputs give equal texts.
pub proof fn lemma_extraction_is_pure(a: Seq<char>, b: Seq<char>)
    requires
        a == b,
    ensures
        extracted_text(a) == extracted_text(b),
{
}

} // verus!
