use vstd::prelude::*;
use syntect::html::{ClassStyle, ClassedHTMLGenerator};
use syntect::parsing::SyntaxSet;
use crate::domain_error::DomainError;
use crate::highlight::{code_close, code_open, CodeBlock};
use crate::lines::{line_views, lines_of, lines_with_endings};

verus! {

#[verifier::external_type_specification]
#[verifier::external_body]
pub struct ExSyntaxSet(SyntaxSet);

#[verifier::external_type_specification]
#[verifier::external_body]
pub struct ExClassedHTMLGenerator<'a>(ClassedHTMLGenerator<'a>);

#[verifier::external_type_specification]
#[verifier::external_body]
pub struct ExSyntectError(syntect::Error);

/// The syntax definitions that code blocks are highlighted with: syntect's
/// default set, in the form that expects each line with its line feed. Only
/// `load_defaults` makes one, so it always holds a plain-text syntax.
pub struct SyntaxCatalog {
    set: SyntaxSet,
}

/// Whether the default syntax set has a syntax for a language token (by file
/// extension or by name).
pub uninterp spec fn token_is_known(token: Seq<char>) -> bool;

/// The syntax a generator highlights with: `Some(t)` for the syntax found
/// for the known token `t`, `None` for plain text.
pub uninterp spec fn generator_syntax(g: ClassedHTMLGenerator<'_>) -> Option<Seq<char>>;

/// The lines a generator has tokenized so far, in order.
pub uninterp spec fn generator_lines(g: ClassedHTMLGenerator<'_>) -> Seq<Seq<char>>;

/// Whether the tokenizer of a syntax, after the lines `before`, accepts
/// `line`.
pub uninterp spec fn line_tokenizes(
    syntax: Option<Seq<char>>,
    before: Seq<Seq<char>>,
    line: Seq<char>,
) -> bool;

/// The class-annotated markup of `lines` under a syntax, every span closed.
pub uninterp spec fn classed_markup(syntax: Option<Seq<char>>, lines: Seq<Seq<char>>) -> Seq<
    char,
>;

/// Relies on SyntaxSet::load_defaults_newlines: the syntaxes bundled with
/// syntect.
#[verifier::external_body]
fn default_syntax_set() -> SyntaxSet {
    SyntaxSet::load_defaults_newlines()
}

/// Relies on SyntaxSet::find_syntax_by_token: whether the set has a syntax
/// for the token; the set is always the default one.
#[verifier::external_body]
fn knows_token(catalog: &SyntaxCatalog, token: &str) -> (r: bool)
    ensures
        r == token_is_known(token@),
{
    catalog.set.find_syntax_by_token(token).is_some()
}

/// Relies on SyntaxSet::find_syntax_by_token and
/// ClassedHTMLGenerator::new_with_class_style: a generator, with classes
/// separated by spaces, for the syntax of a known token; it has seen no line.
#[verifier::external_body]
fn token_generator<'a>(catalog: &'a SyntaxCatalog, token: &str) -> (r: ClassedHTMLGenerator<'a>)
    requires
        token_is_known(token@),
    ensures
        generator_syntax(r) == Some(token@),
        generator_lines(r) == Seq::<Seq<char>>::empty(),
{
    let syntax = catalog.set.find_syntax_by_token(token).unwrap();
    ClassedHTMLGenerator::new_with_class_style(syntax, &catalog.set, ClassStyle::Spaced)
}

/// Relies on SyntaxSet::find_syntax_plain_text, which panics only on a set
/// without a plain-text syntax (the default set has one), and on
/// ClassedHTMLGenerator::new_with_class_style: a plain-text generator that
/// has seen no line.
#[verifier::external_body]
fn plain_text_generator(catalog: &SyntaxCatalog) -> (r: ClassedHTMLGenerator<'_>)
    ensures
        generator_syntax(r) == None::<Seq<char>>,
        generator_lines(r) == Seq::<Seq<char>>::empty(),
{
    let syntax = catalog.set.find_syntax_plain_text();
    ClassedHTMLGenerator::new_with_class_style(syntax, &catalog.set, ClassStyle::Spaced)
}

/// Relies on ClassedHTMLGenerator::parse_html_for_line_which_includes_newline:
/// tokenizes one line, carrying the tokenizer's state on to the next line;
/// whether it succeeds depends on the syntax and the lines so far.
#[verifier::external_body]
fn highlight_line(generator: &mut ClassedHTMLGenerator, line: &str) -> (r: Result<(), syntect::Error>)
    ensures
        generator_syntax(*final(generator)) == generator_syntax(*old(generator)),
        r is Ok == line_tokenizes(
            generator_syntax(*old(generator)),
            generator_lines(*old(generator)),
            line@,
        ),
        r is Ok ==> generator_lines(*final(generator)) == generator_lines(*old(generator)).push(
            line@,
        ),
{
    generator.parse_html_for_line_which_includes_newline(line)
}

/// Relies on ClassedHTMLGenerator::finalize: the markup of all lines, with
/// every open span closed.
#[verifier::external_body]
fn finish_generator(generator: ClassedHTMLGenerator) -> (r: String)
    ensures
        r@ == classed_markup(generator_syntax(generator), generator_lines(generator)),
{
    generator.finalize()
}

/// The syntax a block is highlighted with: that of its language token where
/// the token is known, plain text where it is unknown or absent.
pub open spec fn block_syntax(language: Option<Seq<char>>) -> Option<Seq<char>> {
    match language {
        Some(t) => if token_is_known(t) {
            Some(t)
        } else {
            None
        },
        None => None,
    }
}

/// Every line is accepted by the tokenizer, each after the ones before it.
pub open spec fn lines_tokenize(syntax: Option<Seq<char>>, lines: Seq<Seq<char>>) -> bool {
    forall|i: int| 0 <= i < lines.len() ==> line_tokenizes(syntax, lines.take(i), #[trigger] lines[i])
}

/// The HTML of a code block, or `None` where the tokenizer fails on it.
pub open spec fn block_html(language: Option<Seq<char>>, code: Seq<char>) -> Option<Seq<char>> {
    let syntax = block_syntax(language);
    let lines = lines_of(code);
    if lines_tokenize(syntax, lines) {
        Some(code_open() + classed_markup(syntax, lines) + code_close())
    } else {
        None
    }
}

/// An unknown language token is never the cause of a failure: a block with
/// one is highlighted exactly as a block without a token, in plain text.
pub proof fn lemma_unknown_token_is_plain_text(token: Seq<char>, code: Seq<char>)
    requires
        !token_is_known(token),
    ensures
        block_syntax(Some(token)) == None::<Seq<char>>,
        block_html(Some(token), code) == block_html(None, code),
{
}

pub open spec fn language_view(language: Option<String>) -> Option<Seq<char>> {
    match language {
        Some(l) => Some(l@),
        None => None,
    }
}

impl SyntaxCatalog {
    pub fn load_defaults() -> SyntaxCatalog {
        SyntaxCatalog { set: default_syntax_set() }
    }

    /// A generator for a block's language, plain text where the token is
    /// absent or unknown.
    fn generator_for(&self, language: &Option<String>) -> (r: ClassedHTMLGenerator<'_>)
        ensures
            generator_syntax(r) == block_syntax(language_view(*language)),
            generator_lines(r) == Seq::<Seq<char>>::empty(),
    {
        match language {
            Some(token) => if knows_token(self, token.as_str()) {
                token_generator(self, token.as_str())
            } else {
                plain_text_generator(self)
            },
            None => plain_text_generator(self),
        }
    }

    /// Highlights one code block, line by line with the syntax of its
    /// language, and wraps the markup in `<pre><code>…</code></pre>`. Only a
    /// failure of the tokenizer fails it; an unknown language falls back to
    /// plain text.
    pub fn code_block_html(&self, block: &CodeBlock) -> (r: Result<String, DomainError>)
        ensures
            r is Ok <==> block_html(language_view(block.language), block.code@) is Some,
            r matches Ok(h) ==> block_html(language_view(block.language), block.code@) == Some(
                h@,
            ),
            r matches Err(e) ==> e is UnexpectedError,
    {
        let ghost syntax = block_syntax(language_view(block.language));
        let mut generator = self.generator_for(&block.language);
        let lines = lines_with_endings(block.code.as_str());
        let ghost views = line_views(lines@);
        let mut i: usize = 0;
        while i < lines.len()
            invariant
                i <= lines@.len(),
                views == line_views(lines@),
                views == lines_of(block.code@),
                syntax == block_syntax(language_view(block.language)),
                generator_syntax(generator) == syntax,
                generator_lines(generator) == views.take(i as int),
                forall|j: int| 0 <= j < i ==> line_tokenizes(syntax, views.take(j), #[trigger] views[j]),
            decreases lines@.len() - i,
        {
            let ghost g0 = generator;
            match highlight_line(&mut generator, lines[i].as_str()) {
                Ok(()) => {},
                Err(_) => {
                    proof {
                        assert(views[i as int] == lines@[i as int]@);
                        assert(!lines_tokenize(syntax, views));
                    }
                    return Err(
                        DomainError::UnexpectedError(
                            String::from_str("Failed to highlight a code block"),
                        ),
                    );
                },
            }
            proof {
                assert(views[i as int] == lines@[i as int]@);
                assert(views.take(i + 1) =~= views.take(i as int).push(views[i as int]));
            }
            i = i + 1;
        }
        proof {
            assert(views.take(i as int) =~= views);
        }
        let inner = finish_generator(generator);
        let mut html = String::from_str("<pre><code>");
        html.append(inner.as_str());
        html.append("</code></pre>");
        proof {
            reveal_strlit("<pre><code>");
            reveal_strlit("</code></pre>");
            assert(html@ == code_open() + inner@ + code_close());
        }
        Ok(html)
    }
}

} // verus!
