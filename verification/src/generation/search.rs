//! The search index: one entry for each post.

use vstd::prelude::*;
use vstd::string::*;
use crate::generation::generator::HtmlGenerator;
use crate::models::config::Config;
use crate::models::types::Post;
use crate::plugins::error::PluginError;
use crate::plugins::Plugin;
use crate::text::{clone_strings, join_path, path_join, take_chars, texts};
use crate::utils::time::{date_text, format_date};

verus! {

/// How many characters of a body the index keeps where it does not keep the
/// full body and the post has no excerpt.
pub const PREVIEW_CHARS: usize = 150;

/// One entry of the search index.
#[derive(Clone, Debug)]
pub struct SearchIndexItem {
    pub title: String,
    pub path: String,
    /// The full body or a summary, as the generator was set up.
    pub content: String,
    /// The day of publication, as `YYYY-MM-DD`.
    pub date: String,
    pub categories: Vec<String>,
    pub tags: Vec<String>,
}

/// Builds the search index of a site.
#[derive(Clone, Copy, Debug)]
pub struct SearchIndexGenerator {
    use_full_content: bool,
}

/// The beginning of a body, cut after `PREVIEW_CHARS` characters and marked
/// with an ellipsis.
pub open spec fn preview_of(content: Seq<char>) -> Seq<char> {
    if content.len() > PREVIEW_CHARS {
        content.take(PREVIEW_CHARS as int) + "..."@
    } else {
        content
    }
}

/// What the index keeps of the body of a post: the full body, or else the
/// excerpt of the post, or else the preview of the body.
pub open spec fn indexed_content(post: Post, full: bool) -> Seq<char> {
    if full {
        post.content@
    } else {
        match post.excerpt {
            Some(excerpt) => excerpt@,
            None => preview_of(post.content@),
        }
    }
}

/// Whether `item` is the index entry of `post`.
pub open spec fn is_item_of(item: SearchIndexItem, post: Post, full: bool) -> bool {
    &&& item.title@ == post.title@
    &&& item.path@ == post.path@
    &&& item.content@ == indexed_content(post, full)
    &&& item.date@ == date_text(post.date)
    &&& texts(item.categories@) == texts(post.categories@)
    &&& texts(item.tags@) == texts(post.tags@)
}

/// Computes the preview of a body.
pub fn preview(content: &str) -> (r: String)
    ensures
        r@ == preview_of(content@),
{
    if content.unicode_len() > PREVIEW_CHARS {
        let mut cut = take_chars(content, PREVIEW_CHARS);
        cut.append("...");
        cut
    } else {
        content.to_string()
    }
}

impl SearchIndexGenerator {
    /// Whether entries carry the full body of their post.
    pub closed spec fn full_content(&self) -> bool {
        self.use_full_content
    }

    pub fn new(use_full_content: bool) -> (r: Self)
        ensures
            r.full_content() == use_full_content,
    {
        SearchIndexGenerator { use_full_content }
    }

    /// The index entry of one post.
    pub fn item(&self, post: &Post) -> (item: SearchIndexItem)
        ensures
            is_item_of(item, *post, self.full_content()),
    {
        let content = if self.use_full_content {
            post.content.clone()
        } else {
            match &post.excerpt {
                Some(excerpt) => excerpt.clone(),
                None => preview(post.content.as_str()),
            }
        };
        SearchIndexItem {
            title: post.title.clone(),
            path: post.path.clone(),
            content,
            date: format_date(&post.date),
            categories: clone_strings(&post.categories),
            tags: clone_strings(&post.tags),
        }
    }

    /// The search index: one entry for each post, in post order.
    pub fn generate(&self, posts: &Vec<Post>) -> (r: Result<Vec<SearchIndexItem>, PluginError>)
        ensures
            r matches Ok(index) && index@.len() == posts@.len() && forall|i: int|
                0 <= i < index@.len() ==> is_item_of(
                    #[trigger] index@[i],
                    posts@[i],
                    self.full_content(),
                ),
    {
        let mut index: Vec<SearchIndexItem> = Vec::new();
        let mut i: usize = 0;
        while i < posts.len()
            invariant
                i <= posts.len(),
                index@.len() == i,
                forall|j: int|
                    0 <= j < i ==> is_item_of(#[trigger] index@[j], posts@[j], self.full_content()),
            decreases posts.len() - i,
        {
            index.push(self.item(&posts[i]));
            i = i + 1;
        }
        Ok(index)
    }
}

/// Where the search index is written: `search/search.json` below the output
/// directory.
pub open spec fn search_index_path(output_dir: Seq<char>) -> Seq<char> {
    path_join(path_join(output_dir, "search"@), "search.json"@)
}

/// Whether the site has a search index: it has one unless the configuration
/// switches search off.
pub open spec fn search_enabled(config: Config) -> bool {
    match config.search {
        Some(search) => search.enable,
        None => true,
    }
}

/// Whether the index keeps full bodies: only where the configuration asks
/// for it.
pub open spec fn search_full_content(config: Config) -> bool {
    match config.search {
        Some(search) => search.content,
        None => false,
    }
}

/// The search index of a site, to be written as JSON.
#[derive(Clone, Debug)]
pub struct SearchIndexFile {
    pub path: String,
    pub items: Vec<SearchIndexItem>,
}

impl<'a, P: Plugin + ?Sized> HtmlGenerator<'a, P> {
    /// The search index of the site, or `None` where search is switched off.
    pub fn generate_search_index(&self, posts: &Vec<Post>) -> (r: Result<
        Option<SearchIndexFile>,
        PluginError,
    >)
        ensures
            r is Ok,
            r matches Ok(None) ==> !search_enabled(self.config),
            r matches Ok(Some(file)) ==> {
                &&& search_enabled(self.config)
                &&& file.path@ == search_index_path(self.output_dir@)
                &&& file.items@.len() == posts@.len()
                &&& (forall|i: int|
                    0 <= i < file.items@.len() ==> is_item_of(
                        #[trigger] file.items@[i],
                        posts@[i],
                        search_full_content(self.config),
                    ))
            },
    {
        let enabled = match &self.config.search {
            Some(search) => search.enable,
            None => true,
        };
        if !enabled {
            return Ok(None);
        }
        let full = match &self.config.search {
            Some(search) => search.content,
            None => false,
        };
        let generator = SearchIndexGenerator::new(full);
        let items = match generator.generate(posts) {
            Ok(items) => items,
            Err(e) => {
                return Err(e);
            },
        };
        let dir = join_path(self.output_dir.as_str(), "search");
        Ok(Some(SearchIndexFile { path: join_path(dir.as_str(), "search.json"), items }))
    }
}

/// The markup and script of the search page, between the frame.
pub const SEARCH_PAGE_BODY: &'static str = "    <div class=\"search-container\">\n        <div class=\"search-box\">\n            <input type=\"text\" id=\"search-input\" placeholder=\"Search...\">\n        </div>\n        <div id=\"search-results\"></div>\n    </div>\n    <script>\n        const searchIndex = {};\n        document.getElementById('search-input').addEventListener('input', function(e) {\n            const query = e.target.value.toLowerCase();\n            const results = Object.entries(searchIndex)\n                .filter(([_, post]) => post.title.toLowerCase().includes(query) || post.content.toLowerCase().includes(query))\n                .map(([_, post]) => `<div class=\"search-result\">\n                    <h3><a href=\"${{post.url}}\">${{post.title}}</a></h3>\n                    <p>${{post.excerpt}}</p>\n                    <div class=\"meta\">\n                        <span class=\"date\">${{post.date}}</span>\n                        ${{post.categories ? `<span class=\"categories\">Categories: ${{post.categories.join(', ')}}` : ''}}\n                        ${{post.tags ? `<span class=\"tags\">Tags: ${{post.tags.join(', ')}}` : ''}}\n                    </div>\n                </div>`)\n                .join('');\n            document.getElementById('search-results').innerHTML = results;\n        });\n    </script>\n";

/// The search page: a box to type into and the script that searches.
pub open spec fn search_page(config: Config, year: int) -> Seq<char> {
    crate::generation::html::html_header(config, "Search"@) + SEARCH_PAGE_BODY@
        + crate::generation::html::html_footer(config, year)
}

impl<'a, P: Plugin + ?Sized> HtmlGenerator<'a, P> {
    /// Writes the search page.
    pub fn generate_search_page(&self, year: i32) -> (r: Result<String, PluginError>)
        ensures
            r matches Ok(page) && page@ == search_page(self.config, year as int),
    {
        let mut content = String::new();
        crate::generation::html::write_html_header(&self.config, &mut content, "Search");
        content.append(SEARCH_PAGE_BODY);
        crate::generation::html::write_html_footer(&self.config, &mut content, year);
        Ok(content)
    }
}

} // verus!
