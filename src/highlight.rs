use vstd::prelude::*;
use crate::domain_error::DomainError;
use crate::syntax::{block_html, language_view, SyntaxCatalog};

verus! {

/// How a code block was opened in the markdown source.
#[derive(Debug, Clone)]
pub enum CodeBlockKind {
    /// A fenced block with its info string (the language token).
    Fenced(String),
    /// A block set off by indentation: no language.
    Indented,
}

/// One event of a parsed markdown document, as the highlighting transform
/// sees it. `O` carries every event that the transform passes on untouched.
#[derive(Debug, Clone)]
pub enum DocEvent<O> {
    StartCodeBlock(CodeBlockKind),
    EndCodeBlock,
    Text(String),
    Html(String),
    Other(O),
}

/// A finished code block, ready to be highlighted.
#[derive(Debug, Clone)]
pub struct CodeBlock {
    /// The language token of a fenced block; `None` for an indented one.
    pub language: Option<String>,
    /// The text of the block, all its text events in order.
    pub code: String,
}

/// What one event does to the transform.
pub enum Step<O> {
    /// The event goes to the output as it is.
    Emit(DocEvent<O>),
    /// The event was taken into the current code block.
    Absorbed,
    /// The event closed a code block, which is handed out.
    Finished(CodeBlock),
}

/// The abstract state of the transform: inside a code block or not, the
/// language of the current block and the text gathered for it.
pub struct HlState {
    pub in_block: bool,
    pub language: Option<Seq<char>>,
    pub buffer: Seq<char>,
}

pub open spec fn idle() -> HlState {
    HlState { in_block: false, language: None, buffer: Seq::empty() }
}

pub open spec fn language_of(kind: CodeBlockKind) -> Option<Seq<char>> {
    match kind {
        CodeBlockKind::Fenced(t) => Some(t@),
        CodeBlockKind::Indented => None,
    }
}

/// The state after event `e` in state `s`.
pub open spec fn next_state<O>(s: HlState, e: DocEvent<O>) -> HlState {
    match e {
        DocEvent::StartCodeBlock(kind) => HlState {
            in_block: true,
            language: language_of(kind),
            buffer: s.buffer,
        },
        DocEvent::EndCodeBlock => idle(),
        DocEvent::Text(t) => if s.in_block {
            HlState { buffer: s.buffer + t@, ..s }
        } else {
            s
        },
        _ => s,
    }
}

/// Whether event `e` in state `s` goes to the output unchanged.
pub open spec fn passes_through<O>(s: HlState, e: DocEvent<O>) -> bool {
    match e {
        DocEvent::StartCodeBlock(_) => false,
        DocEvent::EndCodeBlock => false,
        DocEvent::Text(_) => !s.in_block,
        _ => true,
    }
}

/// The state after a whole sequence of events, from the initial state.
pub open spec fn state_after<O>(events: Seq<DocEvent<O>>) -> HlState
    decreases events.len(),
{
    if events.len() == 0 {
        idle()
    } else {
        next_state(state_after(events.drop_last()), events.last())
    }
}

pub open spec fn code_open() -> Seq<char> {
    "<pre><code>"@
}

pub open spec fn code_close() -> Seq<char> {
    "</code></pre>"@
}

/// `out` is a rendering of `events`: every event that passes through stands
/// in `out` in its place, every text inside a code block is dropped, and
/// every block end stands as one HTML event: the markup of that block, made
/// from its own language and its own text only.
pub open spec fn rendered<O>(events: Seq<DocEvent<O>>, out: Seq<DocEvent<O>>) -> bool
    decreases events.len(),
{
    if events.len() == 0 {
        out.len() == 0
    } else {
        let prev = events.drop_last();
        let e = events.last();
        if e is EndCodeBlock {
            &&& out.len() > 0
            &&& out.last() matches DocEvent::Html(h) && block_html(
                state_after(prev).language,
                state_after(prev).buffer,
            ) == Some(h@)
            &&& rendered(prev, out.drop_last())
        } else if passes_through(state_after(prev), e) {
            &&& out.len() > 0
            &&& out.last() == e
            &&& rendered(prev, out.drop_last())
        } else {
            rendered(prev, out)
        }
    }
}

/// The tokenizer accepts every code block of `events`.
pub open spec fn blocks_ok<O>(events: Seq<DocEvent<O>>) -> bool
    decreases events.len(),
{
    if events.len() == 0 {
        true
    } else {
        let prev = events.drop_last();
        &&& blocks_ok(prev)
        &&& events.last() is EndCodeBlock ==> block_html(
            state_after(prev).language,
            state_after(prev).buffer,
        ) is Some
    }
}

proof fn lemma_blocks_ok_prefix<O>(events: Seq<DocEvent<O>>, n: int)
    requires
        0 <= n <= events.len(),
        blocks_ok(events),
    ensures
        blocks_ok(events.subrange(0, n)),
    decreases events.len(),
{
    if n == events.len() {
        assert(events.subrange(0, n) =~= events);
    } else {
        lemma_blocks_ok_prefix(events.drop_last(), n);
        assert(events.drop_last().subrange(0, n) =~= events.subrange(0, n));
    }
}

/// The events hold no code block at all.
pub open spec fn has_no_code<O>(events: Seq<DocEvent<O>>) -> bool {
    forall|i: int|
        0 <= i < events.len() ==> !(#[trigger] events[i] is StartCodeBlock)
            && !(events[i] is EndCodeBlock)
}

/// The state of the single-pass transform over one document.
pub struct Highlighter {
    in_code_block: bool,
    language: Option<String>,
    buffer: String,
}

impl View for Highlighter {
    type V = HlState;

    closed spec fn view(&self) -> HlState {
        HlState {
            in_block: self.in_code_block,
            language: match self.language {
                Some(l) => Some(l@),
                None => None,
            },
            buffer: self.buffer@,
        }
    }
}

impl Highlighter {
    pub fn new() -> (r: Highlighter)
        ensures
            r@ == idle(),
    {
        Highlighter { in_code_block: false, language: None, buffer: String::new() }
    }

    /// Feeds one event to the transform.
    pub fn advance<O>(&mut self, event: DocEvent<O>) -> (r: Step<O>)
        ensures
            final(self)@ == next_state(old(self)@, event),
            passes_through(old(self)@, event) <==> r is Emit,
            r matches Step::Emit(x) ==> x == event,
            event is EndCodeBlock <==> r is Finished,
            r matches Step::Finished(b) ==> b.code@ == old(self)@.buffer && language_view(b.language)
                == old(self)@.language,
    {
        match event {
            DocEvent::StartCodeBlock(kind) => {
                self.language = match kind {
                    CodeBlockKind::Fenced(t) => Some(t),
                    CodeBlockKind::Indented => None,
                };
                self.in_code_block = true;
                Step::Absorbed
            },
            DocEvent::EndCodeBlock => {
                let code = self.buffer.clone();
                self.buffer = String::new();
                let language = self.language.take();
                self.in_code_block = false;
                Step::Finished(CodeBlock { language, code })
            },
            DocEvent::Text(t) => {
                if self.in_code_block {
                    self.buffer.append(t.as_str());
                    Step::Absorbed
                } else {
                    Step::Emit(DocEvent::Text(t))
                }
            },
            e => Step::Emit(e),
        }
    }
}

/// Replaces each code block of `events` (its start, its text and its end) by
/// one HTML event that holds the block highlighted inside
/// `<pre><code>…</code></pre>`, in a single pass. Every other event is passed
/// on unchanged and in order; text outside code blocks is not escaped here.
/// Each block is highlighted with its own language and text only. Fails
/// exactly where the tokenizer fails on a block.
pub fn highlight<O>(events: Vec<DocEvent<O>>, catalog: &SyntaxCatalog) -> (r: Result<
    Vec<DocEvent<O>>,
    DomainError,
>)
    ensures
        r is Ok <==> blocks_ok(events@),
        r matches Ok(out) ==> rendered(events@, out@),
        r matches Err(e) ==> e is UnexpectedError,
        has_no_code(events@) ==> (r matches Ok(out) && out@ == events@),
{
    let ghost all = events@;
    let mut out: Vec<DocEvent<O>> = Vec::new();
    let mut hl = Highlighter::new();
    for e in it: events
        invariant
            all == events@,
            it.seq() == all,
            hl@ == state_after(all.subrange(0, it.index() as int)),
            rendered(all.subrange(0, it.index() as int), out@),
            blocks_ok(all.subrange(0, it.index() as int)),
            has_no_code(all) ==> out@ == all.subrange(0, it.index() as int) && !hl@.in_block,
    {
        let ghost k = it.index() as int;
        proof {
            assert(all.subrange(0, k + 1).drop_last() =~= all.subrange(0, k));
            assert(all[k] == e);
            if has_no_code(all) {
                assert(!(all[k] is EndCodeBlock));
            }
        }
        let ghost s0 = hl@;
        let ghost before = out@;
        match hl.advance(e) {
            Step::Emit(x) => {
                out.push(x);
            },
            Step::Absorbed => {},
            Step::Finished(block) => {
                match catalog.code_block_html(&block) {
                    Ok(h) => {
                        out.push(DocEvent::Html(h));
                    },
                    Err(err) => {
                        proof {
                            let pre = all.subrange(0, k + 1);
                            assert(pre.drop_last() =~= all.subrange(0, k));
                            assert(!blocks_ok(pre));
                            if blocks_ok(all) {
                                lemma_blocks_ok_prefix(all, k + 1);
                            }
                        }
                        return Err(err);
                    },
                }
            },
        }
        proof {
            assert(out@.len() > before.len() ==> out@.drop_last() =~= before);
            let pre = all.subrange(0, k + 1);
            assert(pre.len() == k + 1);
            assert(pre.last() == e);
            assert(state_after(pre.drop_last()) == s0);
            assert(rendered(pre, out@));
            assert(blocks_ok(pre));
            if has_no_code(all) {
                assert(out@ =~= pre);
            }
        }
    }
    proof {
        assert(all.subrange(0, all.len() as int) =~= all);
    }
    Ok(out)
}

/// Outside a code block the transform holds no text and no language.
pub proof fn lemma_idle_holds_nothing<O>(events: Seq<DocEvent<O>>)
    ensures
        !state_after(events).in_block ==> state_after(events) == idle(),
    decreases events.len(),
{
    if events.len() > 0 {
        lemma_idle_holds_nothing(events.drop_last());
    }
}

/// No state crosses a code block's end: once a block has closed, the rest of
/// the document is transformed exactly as it would be on its own. The
/// tokenizer accepts the whole exactly where it accepts both parts, and the
/// renderings of the parts, joined, render the whole.
pub proof fn lemma_blocks_independent<O>(
    a: Seq<DocEvent<O>>,
    b: Seq<DocEvent<O>>,
    out_a: Seq<DocEvent<O>>,
    out_b: Seq<DocEvent<O>>,
)
    requires
        a.len() > 0,
        a.last() is EndCodeBlock,
    ensures
        state_after(a + b) == state_after(b),
        blocks_ok(a + b) == (blocks_ok(a) && blocks_ok(b)),
        rendered(a, out_a) && rendered(b, out_b) ==> rendered(a + b, out_a + out_b),
    decreases b.len(),
{
    if b.len() == 0 {
        assert(a + b =~= a);
        if rendered(b, out_b) {
            assert(out_a + out_b =~= out_a);
        }
    } else {
        lemma_blocks_independent(a, b.drop_last(), out_a, out_b);
        assert((a + b).drop_last() =~= a + b.drop_last());
        if out_b.len() > 0 {
            lemma_blocks_independent(a, b.drop_last(), out_a, out_b.drop_last());
            assert((out_a + out_b).drop_last() =~= out_a + out_b.drop_last());
        }
    }
}

} // verus!
