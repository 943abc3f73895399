//! Markdown rendering.

use vstd::prelude::*;

verus! {

/// The Markdown extensions to switch on for one rendering.
#[derive(Clone, Copy, Debug, PartialEq, Eq, Structural)]
pub struct MarkdownOptions {
    pub tables: bool,
    pub footnotes: bool,
    pub strikethrough: bool,
    pub tasklists: bool,
    pub heading_attributes: bool,
    pub smart_punctuation: bool,
}

impl MarkdownOptions {
    /// The extensions used for documents: tables, footnotes, strikethrough
    /// and task lists.
    pub open spec fn for_documents() -> MarkdownOptions {
        MarkdownOptions {
            tables: true,
            footnotes: true,
            strikethrough: true,
            tasklists: true,
            heading_attributes: false,
            smart_punctuation: false,
        }
    }

    /// The extensions used for documents.
    pub fn document() -> (r: MarkdownOptions)
        ensures
            r == MarkdownOptions::for_documents(),
    {
        MarkdownOptions {
            tables: true,
            footnotes: true,
            strikethrough: true,
            tasklists: true,
            heading_attributes: false,
            smart_punctuation: false,
        }
    }
}

/// The HTML that `pulldown_cmark` renders for a Markdown source under the
/// given extensions.
pub uninterp spec fn markdown_html(markdown: Seq<char>, options: MarkdownOptions) -> Seq<char>;

/// Renders a Markdown document as HTML. Rendering never fails.
pub fn render(markdown: &str) -> (r: Result<String, String>)
    ensures
        r matches Ok(html) && html@ == markdown_html(markdown@, MarkdownOptions::for_documents()),
{
    Ok(to_html(markdown, MarkdownOptions::document()))
}

/// Calls `pulldown_cmark::Parser::new_ext` and `pulldown_cmark::html::push_html`.
/// The output depends on the source text and the options alone; the contract
/// names it.
#[verifier::external_body]
pub(crate) fn to_html(markdown: &str, options: MarkdownOptions) -> (html: String)
    ensures
        html@ == markdown_html(markdown@, options),
{
    let mut flags = pulldown_cmark::Options::empty();
    flags.set(pulldown_cmark::Options::ENABLE_TABLES, options.tables);
    flags.set(pulldown_cmark::Options::ENABLE_FOOTNOTES, options.footnotes);
    flags.set(pulldown_cmark::Options::ENABLE_STRIKETHROUGH, options.strikethrough);
    flags.set(pulldown_cmark::Options::ENABLE_TASKLISTS, options.tasklists);
    flags.set(pulldown_cmark::Options::ENABLE_HEADING_ATTRIBUTES, options.heading_attributes);
    flags.set(pulldown_cmark::Options::ENABLE_SMART_PUNCTUATION, options.smart_punctuation);
    let mut html = String::new();
    pulldown_cmark::html::push_html(&mut html, pulldown_cmark::Parser::new_ext(markdown, flags));
    html
}

} // verus!
