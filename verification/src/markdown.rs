//! Rendering a markdown body to HTML.

use pulldown_cmark::html::push_html;
use pulldown_cmark::Options;
use pulldown_cmark::Parser;
use vstd::prelude::*;

verus! {

/// The extensions to CommonMark that the renderer reads.
#[derive(Clone, Copy, Debug, PartialEq, Eq, Structural)]
pub struct Extensions {
    /// Strikethrough spans, written with tildes.
    pub strikethrough: bool,
    /// Tables.
    pub tables: bool,
    /// An id and classes in braces behind a heading.
    pub heading_attributes: bool,
    /// Footnote references and definitions.
    pub footnotes: bool,
}

impl Extensions {
    /// The extensions of every site, strikethrough, tables and heading
    /// attributes, and footnotes as asked.
    pub fn standard(footnotes: bool) -> (extensions: Extensions)
        ensures
            extensions == standard_extensions(footnotes),
    {
        Extensions { strikethrough: true, tables: true, heading_attributes: true, footnotes }
    }
}

/// The extensions of every site, strikethrough, tables and heading
/// attributes, and footnotes as asked.
pub open spec fn standard_extensions(footnotes: bool) -> Extensions {
    Extensions { strikethrough: true, tables: true, heading_attributes: true, footnotes }
}

/// The HTML that `pulldown_cmark` renders a markdown text to, with the
/// given extensions switched on.
pub uninterp spec fn markdown_html(body: Seq<char>, extensions: Extensions) -> Seq<char>;

/// Parses the body with `pulldown_cmark::Parser::new_ext` and renders the
/// events with `pulldown_cmark::html::push_html` into an empty string.
///
/// Trusted: the HTML depends on the body and the four switches alone, so
/// that it is [`markdown_html`] of them. Each switch sets one flag of
/// `pulldown_cmark::Options`, and no other flag is set.
#[verifier::external_body]
fn push_markdown(body: &str, extensions: Extensions) -> (html: String)
    ensures
        html@ == markdown_html(body@, extensions),
{
    let mut options = Options::empty();
    options.set(Options::ENABLE_STRIKETHROUGH, extensions.strikethrough);
    options.set(Options::ENABLE_TABLES, extensions.tables);
    options.set(Options::ENABLE_HEADING_ATTRIBUTES, extensions.heading_attributes);
    options.set(Options::ENABLE_FOOTNOTES, extensions.footnotes);
    let mut html = String::new();
    push_html(&mut html, Parser::new_ext(body, options));
    html
}

/// Renders a markdown body to HTML. Every text renders to something.
pub fn render_markdown(body: &str, extensions: Extensions) -> (html: String)
    ensures
        html@ == markdown_html(body@, extensions),
{
    push_markdown(body, extensions)
}

} // verus!
