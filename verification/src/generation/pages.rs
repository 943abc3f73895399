//! The pages that are rendered from templates: what each page is rendered
//! with.

use vstd::prelude::*;
use vstd::string::*;
use crate::generation::engine::{page_size_of, text_or};
use crate::generation::generator::HtmlGenerator;
use crate::generation::pagination::{
    page_count, page_end, page_start, paginate, PageSpan,
};
use crate::models::config::Config;
use crate::models::types::{Post, Timestamp};
use crate::plugins::error::PluginError;
use crate::plugins::Plugin;
use crate::text::{
    clone_strings, contains_text, decimal, decimal_string, join_path, occurs, path_join,
    take_chars, texts,
};
use crate::utils::time::{format_stamp, stamp_text};
use crate::utils::{parent_of, path_parent};

use crate::plugins::PluginRecord;

verus! {

/// How many characters of a body stand for the body where a post has no
/// excerpt of its own.
pub const EXCERPT_CHARS: usize = 200;

/// The beginning of a body, cut after `EXCERPT_CHARS` characters and marked
/// with an ellipsis. A code block that the cut leaves open is closed.
pub open spec fn summary_of(content: Seq<char>) -> Seq<char> {
    if content.len() > EXCERPT_CHARS {
        let cut = content.take(EXCERPT_CHARS as int);
        if occurs(cut, "<code"@) && !occurs(cut, "</code>"@) {
            cut + "...</code></pre>"@
        } else {
            cut + "..."@
        }
    } else {
        content
    }
}

/// The excerpt shown for a post: its own, else the summary of its body.
pub open spec fn excerpt_of(post: Post) -> Seq<char> {
    match post.excerpt {
        Some(excerpt) => excerpt@,
        None => summary_of(post.content@),
    }
}

/// Computes the summary of a body.
pub fn summarize(content: &str) -> (r: String)
    ensures
        r@ == summary_of(content@),
{
    if content.unicode_len() > EXCERPT_CHARS {
        let mut cut = take_chars(content, EXCERPT_CHARS);
        if contains_text(cut.as_str(), "<code") && !contains_text(cut.as_str(), "</code>") {
            cut.append("...</code></pre>");
        } else {
            cut.append("...");
        }
        cut
    } else {
        content.to_string()
    }
}

/// Computes the excerpt shown for a post.
pub fn excerpt(post: &Post) -> (r: String)
    ensures
        r@ == excerpt_of(*post),
{
    match &post.excerpt {
        Some(excerpt) => excerpt.clone(),
        None => summarize(post.content.as_str()),
    }
}

/// A post as an index page shows it.
#[derive(Clone, Debug)]
pub struct PostSummary {
    pub title: String,
    pub path: String,
    pub date: Timestamp,
    pub categories: Vec<String>,
    pub tags: Vec<String>,
    pub excerpt: String,
    pub content: String,
    pub permalink: String,
}

/// Whether `summary` shows `post`.
pub open spec fn is_summary_of(summary: PostSummary, post: Post) -> bool {
    &&& summary.title@ == post.title@
    &&& summary.path@ == post.path@
    &&& summary.date == post.date
    &&& texts(summary.categories@) == texts(post.categories@)
    &&& texts(summary.tags@) == texts(post.tags@)
    &&& summary.excerpt@ == excerpt_of(post)
    &&& summary.content@ == post.content@
    &&& summary.permalink@ == post.permalink@
}

/// Makes the summary of a post.
pub fn summary(post: &Post) -> (r: PostSummary)
    ensures
        is_summary_of(r, *post),
{
    PostSummary {
        title: post.title.clone(),
        path: post.path.clone(),
        date: post.date,
        categories: clone_strings(&post.categories),
        tags: clone_strings(&post.tags),
        excerpt: excerpt(post),
        content: post.content.clone(),
        permalink: post.permalink.clone(),
    }
}

/// The site as the template of an index page sees it.
#[derive(Clone, Debug)]
pub struct IndexSite {
    pub title: String,
    pub subtitle: String,
    pub description: String,
    pub url: String,
    pub author: String,
    pub language: String,
    pub keywords: String,
    pub root: String,
    pub permalink: String,
    pub theme: String,
}

/// Whether `site` shows `config` to an index page: absent texts are empty,
/// but the URL falls back to `http://localhost`, the language to `zh-CN` and
/// the root to `/`; there are no keywords.
pub open spec fn is_index_site(site: IndexSite, config: Config) -> bool {
    &&& site.title@ == config.title@
    &&& site.subtitle@ == text_or(config.subtitle, Seq::empty())
    &&& site.description@ == text_or(config.description, Seq::empty())
    &&& site.url@ == text_or(config.url, "http://localhost"@)
    &&& site.author@ == text_or(config.author, Seq::empty())
    &&& site.language@ == text_or(config.language, "zh-CN"@)
    &&& site.keywords@ == Seq::<char>::empty()
    &&& site.root@ == text_or(config.root, "/"@)
    &&& site.permalink@ == text_or(config.permalink, Seq::empty())
    &&& site.theme@ == text_or(config.theme, Seq::empty())
}

fn or_empty(value: &Option<String>) -> (r: String)
    ensures
        r@ == text_or(*value, Seq::empty()),
{
    match value {
        Some(s) => s.clone(),
        None => String::new(),
    }
}

fn or_text(value: &Option<String>, fallback: &str) -> (r: String)
    ensures
        r@ == text_or(*value, fallback@),
{
    match value {
        Some(s) => s.clone(),
        None => fallback.to_string(),
    }
}

/// `value` where it is set and not empty, else `fallback`.
pub open spec fn nonempty_or(value: Option<String>, fallback: Seq<char>) -> Seq<char> {
    match value {
        Some(s) => if s@.len() == 0 {
            fallback
        } else {
            s@
        },
        None => fallback,
    }
}

fn or_text_if_empty(value: &Option<String>, fallback: &str) -> (r: String)
    ensures
        r@ == nonempty_or(*value, fallback@),
{
    match value {
        Some(s) => if s.as_str().is_empty() {
            fallback.to_string()
        } else {
            s.clone()
        },
        None => fallback.to_string(),
    }
}

/// Shows `config` to an index page.
pub fn index_site(config: &Config) -> (r: IndexSite)
    ensures
        is_index_site(r, *config),
{
    IndexSite {
        title: config.title.clone(),
        subtitle: or_empty(&config.subtitle),
        description: or_empty(&config.description),
        url: or_text(&config.url, "http://localhost"),
        author: or_empty(&config.author),
        language: or_text(&config.language, "zh-CN"),
        keywords: String::new(),
        root: or_text(&config.root, "/"),
        permalink: or_empty(&config.permalink),
        theme: or_empty(&config.theme),
    }
}

/// The site as the template of a post page sees it.
#[derive(Clone, Debug)]
pub struct PostSite {
    pub title: String,
    pub subtitle: String,
    pub description: String,
    pub author: String,
    pub language: String,
    pub timezone: String,
    pub url: String,
    pub root: String,
    pub permalink: String,
    pub theme: String,
    pub source_dir: String,
    pub public_dir: String,
    pub tag_dir: String,
    pub category_dir: String,
    pub archive_dir: String,
    pub keywords: String,
    pub per_page: i64,
    pub pagination_dir: String,
}

/// The number of posts a page, as a post page is told: the configured
/// number, or ten where none is configured.
pub open spec fn told_per_page(config: Config) -> int {
    match config.per_page {
        Some(n) => n as int,
        None => 10,
    }
}

/// Whether `site` shows `config` to a post page: absent texts are empty, but
/// an absent or empty language stands for `zh-CN` and an absent or empty
/// root for `/`; the permalink pattern and the directory names are fixed.
pub open spec fn is_post_site(site: PostSite, config: Config) -> bool {
    &&& site.title@ == config.title@
    &&& site.subtitle@ == text_or(config.subtitle, Seq::empty())
    &&& site.description@ == text_or(config.description, Seq::empty())
    &&& site.author@ == text_or(config.author, Seq::empty())
    &&& site.language@ == nonempty_or(config.language, "zh-CN"@)
    &&& site.timezone@ == text_or(config.timezone, Seq::empty())
    &&& site.url@ == text_or(config.url, Seq::empty())
    &&& site.root@ == nonempty_or(config.root, "/"@)
    &&& site.permalink@ == ":year/:month/:day/:title/"@
    &&& site.theme@ == text_or(config.theme, Seq::empty())
    &&& site.source_dir@ == "source"@
    &&& site.public_dir@ == "public"@
    &&& site.tag_dir@ == "tags"@
    &&& site.category_dir@ == "categories"@
    &&& site.archive_dir@ == "archives"@
    &&& site.keywords@ == Seq::<char>::empty()
    &&& site.per_page == told_per_page(config)
    &&& site.pagination_dir@ == "page"@
}

/// Shows `config` to a post page.
pub fn post_site(config: &Config) -> (r: PostSite)
    ensures
        is_post_site(r, *config),
{
    PostSite {
        title: config.title.clone(),
        subtitle: or_empty(&config.subtitle),
        description: or_empty(&config.description),
        author: or_empty(&config.author),
        language: or_text_if_empty(&config.language, "zh-CN"),
        timezone: or_empty(&config.timezone),
        url: or_empty(&config.url),
        root: or_text_if_empty(&config.root, "/"),
        permalink: ":year/:month/:day/:title/".to_string(),
        theme: or_empty(&config.theme),
        source_dir: "source".to_string(),
        public_dir: "public".to_string(),
        tag_dir: "tags".to_string(),
        category_dir: "categories".to_string(),
        archive_dir: "archives".to_string(),
        keywords: String::new(),
        per_page: match config.per_page {
            Some(n) => n as i64,
            None => 10,
        },
        pagination_dir: "page".to_string(),
    }
}

/// One index page, ready to be rendered with the template `index.html`.
#[derive(Clone, Debug)]
pub struct IndexPage {
    /// Where the page is written.
    pub file: String,
    pub posts: Vec<PostSummary>,
    pub current: usize,
    pub total: usize,
    pub prev: Option<usize>,
    pub next: Option<usize>,
    pub prev_link: Option<String>,
    pub next_link: Option<String>,
    pub base: String,
    pub site: IndexSite,
    /// The registry names of the active plugins.
    pub plugins: Vec<String>,
}

/// The file of index page `number` below the output directory: `index.html`
/// for the first page, `page/<number>/index.html` for the others.
pub open spec fn index_file(output_dir: Seq<char>, number: nat) -> Seq<char> {
    if number == 1 {
        path_join(output_dir, "index.html"@)
    } else {
        path_join(output_dir, "page/"@ + decimal(number) + "/index.html"@)
    }
}

/// The link to index page `number`: `/` for the first page,
/// `/page/<number>/` for the others.
pub open spec fn index_link(number: nat) -> Seq<char> {
    if number == 1 {
        "/"@
    } else {
        "/page/"@ + decimal(number) + "/"@
    }
}

/// The link from a page back to the page before it. The second page links
/// to `/`.
pub open spec fn prev_link_of(number: nat) -> Option<Seq<char>> {
    if number > 1 {
        Some(index_link((number - 1) as nat))
    } else {
        None
    }
}

/// The link from a page on to the page after it.
pub open spec fn next_link_of(number: nat, total: nat) -> Option<Seq<char>> {
    if number < total {
        Some("/page/"@ + decimal(number + 1) + "/"@)
    } else {
        None
    }
}

/// The text of an optional string.
pub open spec fn optional_text(value: Option<String>) -> Option<Seq<char>> {
    match value {
        Some(s) => Some(s@),
        None => None,
    }
}

/// Whether `page` is index page `k` (counted from zero) of `posts` at `size`
/// posts a page.
pub open spec fn is_index_page(
    page: IndexPage,
    output_dir: Seq<char>,
    config: Config,
    names: Seq<Seq<char>>,
    posts: Seq<Post>,
    size: nat,
    k: nat,
) -> bool {
    let total = page_count(posts.len(), size);
    let start = page_start(posts.len(), size, k);
    let end = page_end(posts.len(), size, k);
    &&& page.file@ == index_file(output_dir, k + 1)
    &&& page.current == k + 1
    &&& page.total == total
    &&& page.prev == if k > 0 {
        Some(k as usize)
    } else {
        None
    }
    &&& page.next == if k + 1 < total {
        Some((k + 2) as usize)
    } else {
        None
    }
    &&& optional_text(page.prev_link) == prev_link_of(k + 1)
    &&& optional_text(page.next_link) == next_link_of(k + 1, total)
    &&& page.base@ == "/"@
    &&& is_index_site(page.site, config)
    &&& texts(page.plugins@) == names
    &&& page.posts@.len() == end - start
    &&& (forall|j: int|
        0 <= j < page.posts@.len() ==> is_summary_of(#[trigger] page.posts@[j], posts[start + j]))
}

impl<'a, P: Plugin + ?Sized> HtmlGenerator<'a, P> {
    /// The registry names of the plugins the generator consults.
    pub open spec fn plugin_names(&self) -> Seq<Seq<char>> {
        match self.plugin_manager {
            Some(host) => host.names(),
            None => Seq::empty(),
        }
    }

    /// The registry of the plugins the generator consults.
    pub open spec fn plugin_registry(&self) -> Seq<(Seq<char>, PluginRecord<P>)> {
        match self.plugin_manager {
            Some(host) => host.registry(),
            None => Seq::empty(),
        }
    }

    /// The registry names of the active plugins, for the templates.
    pub fn plugin_flags(&self) -> (r: Vec<String>)
        ensures
            texts(r@) == self.plugin_names(),
    {
        match self.plugin_manager {
            Some(host) => host.plugin_names(),
            None => {
                let names: Vec<String> = Vec::new();
                assert(texts(names@) =~= Seq::<Seq<char>>::empty());
                names
            },
        }
    }

    /// The index pages of the site: the posts in order, `page_size` to a
    /// page.
    pub fn generate_paginated_index(&self, posts: &Vec<Post>, page_size: usize) -> (r: Result<
        Vec<IndexPage>,
        PluginError,
    >)
        requires
            page_size > 0,
        ensures
            r matches Ok(pages) && pages@.len() == page_count(posts@.len(), page_size as nat)
                && forall|k: int|
                0 <= k < pages@.len() ==> is_index_page(
                    #[trigger] pages@[k],
                    self.output_dir@,
                    self.config,
                    self.plugin_names(),
                    posts@,
                    page_size as nat,
                    k as nat,
                ),
    {
        let spans = paginate(posts.len(), page_size);
        let total = spans.len();
        let mut pages: Vec<IndexPage> = Vec::new();
        let mut k: usize = 0;
        while k < spans.len()
            invariant
                k <= spans@.len(),
                pages@.len() == k,
                total == spans@.len(),
                spans@.len() == page_count(posts@.len(), page_size as nat),
                forall|j: int|
                    0 <= j < spans@.len() ==> {
                        &&& (#[trigger] spans@[j]).number == j + 1
                        &&& spans@[j].start == page_start(
                            posts@.len(),
                            page_size as nat,
                            j as nat,
                        )
                        &&& spans@[j].end == page_end(posts@.len(), page_size as nat, j as nat)
                        &&& spans@[j].start < spans@[j].end
                    },
                forall|j: int|
                    0 <= j < k ==> is_index_page(
                        #[trigger] pages@[j],
                        self.output_dir@,
                        self.config,
                        self.plugin_names(),
                        posts@,
                        page_size as nat,
                        j as nat,
                    ),
            decreases spans.len() - k,
        {
            let span = spans[k];
            let page = self.generate_index_page(posts, &span, total);
            pages.push(page);
            k = k + 1;
        }
        Ok(pages)
    }

    /// One index page: the posts of `span` with everything the template
    /// `index.html` is rendered with.
    pub fn generate_index_page(&self, posts: &Vec<Post>, span: &PageSpan, total: usize) -> (page:
        IndexPage)
        requires
            span.start <= span.end <= posts@.len(),
            1 <= span.number <= total,
        ensures
            page.file@ == index_file(self.output_dir@, span.number as nat),
            page.current == span.number,
            page.total == total,
            page.prev == if span.number > 1 {
                Some((span.number - 1) as usize)
            } else {
                None
            },
            page.next == if span.number < total {
                Some((span.number + 1) as usize)
            } else {
                None
            },
            optional_text(page.prev_link) == prev_link_of(span.number as nat),
            optional_text(page.next_link) == next_link_of(span.number as nat, total as nat),
            page.base@ == "/"@,
            is_index_site(page.site, self.config),
            texts(page.plugins@) == self.plugin_names(),
            page.posts@.len() == span.end - span.start,
            forall|j: int|
                0 <= j < page.posts@.len() ==> is_summary_of(
                    #[trigger] page.posts@[j],
                    posts@[span.start + j],
                ),
    {
        let mut shown: Vec<PostSummary> = Vec::new();
        let mut i: usize = span.start;
        while i < span.end
            invariant
                span.start <= i <= span.end <= posts@.len(),
                shown@.len() == i - span.start,
                forall|j: int|
                    0 <= j < shown@.len() ==> is_summary_of(
                        #[trigger] shown@[j],
                        posts@[span.start + j],
                    ),
            decreases span.end - i,
        {
            shown.push(summary(&posts[i]));
            i = i + 1;
        }
        let number = span.number;
        let file = if number == 1 {
            join_path(self.output_dir.as_str(), "index.html")
        } else {
            let mut name = "page/".to_string();
            let digits = decimal_string(number as u64);
            name.append(digits.as_str());
            name.append("/index.html");
            join_path(self.output_dir.as_str(), name.as_str())
        };
        let prev_link = if number > 1 {
            if number == 2 {
                Some("/".to_string())
            } else {
                let mut link = "/page/".to_string();
                let digits = decimal_string((number - 1) as u64);
                link.append(digits.as_str());
                link.append("/");
                Some(link)
            }
        } else {
            None
        };
        let next_link = if number < total {
            let mut link = "/page/".to_string();
            let digits = decimal_string((number + 1) as u64);
            link.append(digits.as_str());
            link.append("/");
            Some(link)
        } else {
            None
        };
        IndexPage {
            file,
            posts: shown,
            current: number,
            total,
            prev: if number > 1 {
                Some(number - 1)
            } else {
                None
            },
            next: if number < total {
                Some(number + 1)
            } else {
                None
            },
            prev_link,
            next_link,
            base: "/".to_string(),
            site: index_site(&self.config),
            plugins: self.plugin_flags(),
        }
    }
}

/// One post page, ready to be rendered with the template `post.html`.
#[derive(Clone, Debug)]
pub struct PostPage {
    /// Where the page is written.
    pub file: String,
    /// The directory that holds the layouts of the theme.
    pub layout_dir: String,
    /// The position of the post in the post list.
    pub post: usize,
    pub site: PostSite,
    /// The moment of rendering, as `YYYY-MM-DD HH:MM:SS`.
    pub now: String,
    /// The registry names of the active plugins.
    pub plugins: Vec<String>,
}

/// The directory that holds the layouts of the theme: `themes/<theme>/layout`
/// beside the output directory.
pub open spec fn layout_dir_of(output_dir: Seq<char>, config: Config) -> Seq<char> {
    let base = match path_parent(output_dir) {
        Some(parent) => parent,
        None => output_dir,
    };
    path_join(
        path_join(path_join(base, "themes"@), text_or(config.theme, Seq::empty())),
        "layout"@,
    )
}

/// Whether `page` is the page of the post at position `i`.
pub open spec fn is_post_page(
    page: PostPage,
    output_dir: Seq<char>,
    config: Config,
    names: Seq<Seq<char>>,
    posts: Seq<Post>,
    i: int,
    now: Timestamp,
) -> bool {
    &&& page.file@ == path_join(output_dir, posts[i].path@)
    &&& page.layout_dir@ == layout_dir_of(output_dir, config)
    &&& page.post == i
    &&& is_post_site(page.site, config)
    &&& page.now@ == stamp_text(now, 0)
    &&& texts(page.plugins@) == names
}

impl<'a, P: Plugin + ?Sized> HtmlGenerator<'a, P> {
    /// The directory that holds the layouts of the theme.
    pub fn layout_dir(&self) -> (r: String)
        ensures
            r@ == layout_dir_of(self.output_dir@, self.config),
    {
        let base = match parent_of(self.output_dir.as_str()) {
            Some(parent) => parent,
            None => self.output_dir.clone(),
        };
        let themes = join_path(base.as_str(), "themes");
        let theme = or_empty(&self.config.theme);
        let theme_dir = join_path(themes.as_str(), theme.as_str());
        join_path(theme_dir.as_str(), "layout")
    }

    /// The page of one post with everything the template `post.html` is
    /// rendered with.
    pub fn generate_post(&self, posts: &Vec<Post>, i: usize, now: &Timestamp) -> (r: Result<
        PostPage,
        PluginError,
    >)
        requires
            i < posts@.len(),
        ensures
            r matches Ok(page) && is_post_page(
                page,
                self.output_dir@,
                self.config,
                self.plugin_names(),
                posts@,
                i as int,
                *now,
            ),
    {
        let stamp = format_stamp(now, 0);
        Ok(
            PostPage {
                file: join_path(self.output_dir.as_str(), posts[i].path.as_str()),
                layout_dir: self.layout_dir(),
                post: i,
                site: post_site(&self.config),
                now: stamp,
                plugins: self.plugin_flags(),
            },
        )
    }

    /// The pages of all posts, in order.
    pub fn generate_posts(&self, posts: &Vec<Post>, now: &Timestamp) -> (r: Result<
        Vec<PostPage>,
        PluginError,
    >)
        ensures
            r matches Ok(pages) && pages@.len() == posts@.len() && forall|i: int|
                0 <= i < pages@.len() ==> is_post_page(
                    #[trigger] pages@[i],
                    self.output_dir@,
                    self.config,
                    self.plugin_names(),
                    posts@,
                    i,
                    *now,
                ),
    {
        let mut pages: Vec<PostPage> = Vec::new();
        let mut i: usize = 0;
        while i < posts.len()
            invariant
                i <= posts.len(),
                pages@.len() == i,
                forall|j: int|
                    0 <= j < i ==> is_post_page(
                        #[trigger] pages@[j],
                        self.output_dir@,
                        self.config,
                        self.plugin_names(),
                        posts@,
                        j,
                        *now,
                    ),
            decreases posts.len() - i,
        {
            match self.generate_post(posts, i, now) {
                Ok(page) => pages.push(page),
                Err(e) => {
                    return Err(e);
                },
            }
            i = i + 1;
        }
        Ok(pages)
    }
}

} // verus!
