use vstd::prelude::*;
use pulldown_cmark::html::push_html;
use pulldown_cmark::{CodeBlockKind as CmarkBlockKind, Event, Options, Parser, Tag, TagEnd};
use crate::domain_error::DomainError;
use crate::highlight::{
    blocks_ok, has_no_code, highlight, passes_through, rendered, state_after, CodeBlockKind,
    DocEvent,
};
use crate::syntax::SyntaxCatalog;

verus! {

/// The CommonMark events of a document (footnotes and tables enabled), as
/// the transform sees them: code block starts and ends and text in their own
/// variants, every other event as `Other(i)`, `i` being its own position.
pub uninterp spec fn cmark_events(markdown: Seq<char>) -> Seq<DocEvent<usize>>;

/// The HTML that pulldown-cmark writes for `events`, where `Other(i)` stands
/// for the `i`-th event of the document's parse.
pub uninterp spec fn cmark_html(markdown: Seq<char>, events: Seq<DocEvent<usize>>) -> Seq<char>;

/// Every carried event of `events` names an event of the document's parse.
pub open spec fn carried_in_range(markdown: Seq<char>, events: Seq<DocEvent<usize>>) -> bool {
    forall|k: int|
        0 <= k < events.len() ==> (#[trigger] events[k] matches DocEvent::Other(i) ==> i
            < cmark_events(markdown).len())
}

/// Relies on pulldown_cmark::Parser::new_ext with footnotes and tables: the
/// parser events, one for one, with code block starts, ends and text told
/// apart; the rest carried by position.
#[verifier::external_body]
fn markdown_events(markdown: &str) -> (r: Vec<DocEvent<usize>>)
    ensures
        r@ == cmark_events(markdown@),
        forall|k: int| 0 <= k < r@.len() ==> (#[trigger] r@[k] matches DocEvent::Other(i) ==> i == k),
{
    let opts = Options::ENABLE_FOOTNOTES | Options::ENABLE_TABLES;
    Parser::new_ext(markdown, opts).enumerate().map(|(i, e)| match e {
        Event::Start(Tag::CodeBlock(CmarkBlockKind::Fenced(t))) => DocEvent::StartCodeBlock(CodeBlockKind::Fenced(t.to_string())),
        Event::Start(Tag::CodeBlock(CmarkBlockKind::Indented)) => DocEvent::StartCodeBlock(CodeBlockKind::Indented),
        Event::End(TagEnd::CodeBlock) => DocEvent::EndCodeBlock,
        Event::Text(t) => DocEvent::Text(t.to_string()),
        _ => DocEvent::Other(i),
    }).collect()
}

/// Relies on pulldown_cmark::Parser::new_ext (parsed again, to fetch the
/// carried events by position) and pulldown_cmark::html::push_html: plain
/// text escaped, HTML events written as they are.
#[verifier::external_body]
fn render_markdown(markdown: &str, events: &Vec<DocEvent<usize>>) -> (r: String)
    requires
        carried_in_range(markdown@, events@),
    ensures
        r@ == cmark_html(markdown@, events@),
{
    let parsed: Vec<Event> = Parser::new_ext(markdown, Options::ENABLE_FOOTNOTES | Options::ENABLE_TABLES).collect();
    let mut html = String::new();
    push_html(&mut html, events.iter().map(|d| match d {
        DocEvent::StartCodeBlock(CodeBlockKind::Fenced(t)) => Event::Start(Tag::CodeBlock(CmarkBlockKind::Fenced(t.clone().into()))),
        DocEvent::StartCodeBlock(CodeBlockKind::Indented) => Event::Start(Tag::CodeBlock(CmarkBlockKind::Indented)),
        DocEvent::EndCodeBlock => Event::End(TagEnd::CodeBlock),
        DocEvent::Text(t) => Event::Text(t.clone().into()),
        DocEvent::Html(h) => Event::Html(h.clone().into()),
        DocEvent::Other(i) => parsed[*i].clone(),
    }));
    html
}

/// A rendering keeps only carried events of its input.
proof fn lemma_rendered_carries(
    markdown: Seq<char>,
    events: Seq<DocEvent<usize>>,
    out: Seq<DocEvent<usize>>,
)
    requires
        rendered(events, out),
        carried_in_range(markdown, events),
    ensures
        carried_in_range(markdown, out),
    decreases events.len(),
{
    if events.len() > 0 {
        let prev = events.drop_last();
        assert(carried_in_range(markdown, prev)) by {
            assert forall|k: int| 0 <= k < prev.len() implies (#[trigger] prev[k] matches DocEvent::Other(
                i,
            ) ==> i < cmark_events(markdown).len()) by {
                assert(prev[k] == events[k]);
            }
        }
        let e = events.last();
        if e is EndCodeBlock || passes_through(state_after(prev), e) {
            lemma_rendered_carries(markdown, prev, out.drop_last());
            assert forall|k: int| 0 <= k < out.len() implies (#[trigger] out[k] matches DocEvent::Other(
                i,
            ) ==> i < cmark_events(markdown).len()) by {
                if k < out.len() - 1 {
                    assert(out[k] == out.drop_last()[k]);
                } else {
                    assert(events[events.len() - 1] == e);
                }
            }
        } else {
            lemma_rendered_carries(markdown, prev, out);
        }
    }
}

/// Renders markdown to HTML with the given syntaxes: parses it, highlights
/// its code blocks (see `highlight`), and writes the HTML. It fails exactly
/// where the tokenizer fails on a code block; a document without code
/// blocks is written as the parser gave it.
pub fn convert_to_html_with(catalog: &SyntaxCatalog, markdown: &str) -> (r: Result<
    String,
    DomainError,
>)
    ensures
        r is Ok <==> blocks_ok(cmark_events(markdown@)),
        r matches Ok(h) ==> exists|out: Seq<DocEvent<usize>>|
            rendered(cmark_events(markdown@), out) && h@ == cmark_html(markdown@, out),
        has_no_code(cmark_events(markdown@)) ==> (r matches Ok(h) && h@ == cmark_html(
            markdown@,
            cmark_events(markdown@),
        )),
        r matches Err(e) ==> e is UnexpectedError,
{
    let events = markdown_events(markdown);
    let ghost parsed = events@;
    proof {
        assert forall|k: int| 0 <= k < parsed.len() implies (#[trigger] parsed[k] matches DocEvent::Other(
            i,
        ) ==> i < cmark_events(markdown@).len()) by {
            if parsed[k] is Other {
                assert(parsed[k]->Other_0 == k);
            }
        }
    }
    let highlighted = match highlight(events, catalog) {
        Ok(out) => out,
        Err(e) => {
            return Err(e);
        },
    };
    proof {
        lemma_rendered_carries(markdown@, parsed, highlighted@);
    }
    Ok(render_markdown(markdown, &highlighted))
}

/// Renders markdown to HTML with syntect's default syntaxes.
pub fn convert_to_html(markdown: &str) -> (r: Result<String, DomainError>)
    ensures
        r is Ok <==> blocks_ok(cmark_events(markdown@)),
        r matches Ok(h) ==> exists|out: Seq<DocEvent<usize>>|
            rendered(cmark_events(markdown@), out) && h@ == cmark_html(markdown@, out),
        has_no_code(cmark_events(markdown@)) ==> (r matches Ok(h) && h@ == cmark_html(
            markdown@,
            cmark_events(markdown@),
        )),
        r matches Err(e) ==> e is UnexpectedError,
{
    let catalog = SyntaxCatalog::load_defaults();
    convert_to_html_with(&catalog, markdown)
}

} // verus!
