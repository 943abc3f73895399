//! Documents, taxonomies and the site-wide settings handed to templates.

use vstd::prelude::*;
use crate::models::value::{copy_entries, entries_alike, Value};
use crate::text::{clone_strings, texts};

verus! {

/// An instant in UTC: its place on the time line, and the calendar date and
/// clock time it falls on.
///
/// `seconds` counts from the Unix epoch and `nanos` within that second; the
/// order of two instants is the order of these, and dates are printed from
/// them. The civil fields say on which day and at what time of day the
/// instant falls in UTC; archives are grouped by them. Whoever makes an
/// instant fills them in, and the instants that the library reads from a
/// text carry the fields that belong to them.
#[derive(Clone, Copy, Debug, PartialEq, Eq, Structural)]
pub struct Timestamp {
    pub seconds: i64,
    pub nanos: u32,
    pub year: i32,
    pub month: u32,
    pub day: u32,
    pub hour: u32,
    pub minute: u32,
    pub second: u32,
}

impl Timestamp {
    /// Whether `self` lies strictly before `other`.
    pub open spec fn before(self, other: Timestamp) -> bool {
        self.seconds < other.seconds || (self.seconds == other.seconds && self.nanos
            < other.nanos)
    }

    /// Tells whether `self` lies strictly before `other`.
    pub fn is_before(&self, other: &Timestamp) -> (r: bool)
        ensures
            r == self.before(*other),
    {
        self.seconds < other.seconds || (self.seconds == other.seconds && self.nanos
            < other.nanos)
    }

    /// Whether the civil fields name a month, a day and a time of day.
    pub open spec fn civil(self) -> bool {
        &&& 1 <= self.month <= 12
        &&& 1 <= self.day <= 31
        &&& self.hour < 24
        &&& self.minute < 60
        &&& self.second < 61
    }
}

/// A blog post.
///
/// `categories` and `tags` stay empty until the classification stage has run.
#[derive(Clone, Debug)]
pub struct Post {
    pub title: String,
    pub date: Timestamp,
    pub updated: Option<Timestamp>,
    pub comments: bool,
    pub layout: String,
    /// The body as HTML, before any plugin saw it.
    pub content: String,
    /// The body after the HTML-stage transform.
    pub rendered_content: Option<String>,
    /// The path of the source file; the identity of the document.
    pub source: String,
    pub path: String,
    pub permalink: String,
    pub excerpt: Option<String>,
    pub url: Option<String>,
    pub categories: Vec<String>,
    pub tags: Vec<String>,
    /// The front-matter block, in source order.
    pub front_matter: Vec<(String, Value)>,
}

/// A standalone page.
#[derive(Clone, Debug)]
pub struct Page {
    pub title: String,
    pub date: Timestamp,
    pub updated: Option<Timestamp>,
    pub comments: bool,
    pub layout: String,
    pub content: String,
    pub rendered_content: Option<String>,
    pub source: String,
    pub path: String,
    pub permalink: String,
    pub front_matter: Vec<(String, Value)>,
}

/// An optional text as a plain value.
pub open spec fn option_text(text: Option<String>) -> Option<Seq<char>> {
    match text {
        Some(s) => Some(s@),
        None => None,
    }
}

/// A copy of an optional text.
pub fn copy_text(text: &Option<String>) -> (r: Option<String>)
    ensures
        option_text(r) == option_text(*text),
{
    match text {
        Some(s) => Some(s.clone()),
        None => None,
    }
}

impl Post {
    /// Whether two posts hold the same content.
    pub open spec fn alike(self, other: Post) -> bool {
        &&& self.title@ == other.title@
        &&& self.date == other.date
        &&& self.updated == other.updated
        &&& self.comments == other.comments
        &&& self.layout@ == other.layout@
        &&& self.content@ == other.content@
        &&& option_text(self.rendered_content) == option_text(other.rendered_content)
        &&& self.source@ == other.source@
        &&& self.path@ == other.path@
        &&& self.permalink@ == other.permalink@
        &&& option_text(self.excerpt) == option_text(other.excerpt)
        &&& option_text(self.url) == option_text(other.url)
        &&& texts(self.categories@) == texts(other.categories@)
        &&& texts(self.tags@) == texts(other.tags@)
        &&& entries_alike(self.front_matter@, other.front_matter@)
    }

    /// A deep copy of the post.
    pub fn duplicate(&self) -> (r: Post)
        ensures
            self.alike(r),
    {
        Post {
            title: self.title.clone(),
            date: self.date,
            updated: self.updated,
            comments: self.comments,
            layout: self.layout.clone(),
            content: self.content.clone(),
            rendered_content: copy_text(&self.rendered_content),
            source: self.source.clone(),
            path: self.path.clone(),
            permalink: self.permalink.clone(),
            excerpt: copy_text(&self.excerpt),
            url: copy_text(&self.url),
            categories: clone_strings(&self.categories),
            tags: clone_strings(&self.tags),
            front_matter: copy_entries(&self.front_matter),
        }
    }
}

impl Page {
    /// Whether two pages hold the same content.
    pub open spec fn alike(self, other: Page) -> bool {
        &&& self.title@ == other.title@
        &&& self.date == other.date
        &&& self.updated == other.updated
        &&& self.comments == other.comments
        &&& self.layout@ == other.layout@
        &&& self.content@ == other.content@
        &&& option_text(self.rendered_content) == option_text(other.rendered_content)
        &&& self.source@ == other.source@
        &&& self.path@ == other.path@
        &&& self.permalink@ == other.permalink@
        &&& entries_alike(self.front_matter@, other.front_matter@)
    }

    /// A deep copy of the page.
    pub fn duplicate(&self) -> (r: Page)
        ensures
            self.alike(r),
    {
        Page {
            title: self.title.clone(),
            date: self.date,
            updated: self.updated,
            comments: self.comments,
            layout: self.layout.clone(),
            content: self.content.clone(),
            rendered_content: copy_text(&self.rendered_content),
            source: self.source.clone(),
            path: self.path.clone(),
            permalink: self.permalink.clone(),
            front_matter: copy_entries(&self.front_matter),
        }
    }
}

/// A category, derived from the posts that name it.
#[derive(Clone, Debug)]
pub struct Category {
    pub name: String,
    pub slug: String,
    pub path: String,
    pub parent: Option<String>,
    pub post_count: usize,
}

/// A tag, derived from the posts that name it.
#[derive(Clone, Debug)]
pub struct Tag {
    pub name: String,
    pub slug: String,
    pub path: String,
    pub post_count: usize,
}

impl Category {
    /// Whether two categories hold the same content.
    pub open spec fn alike(self, other: Category) -> bool {
        &&& self.name@ == other.name@
        &&& self.slug@ == other.slug@
        &&& self.path@ == other.path@
        &&& option_text(self.parent) == option_text(other.parent)
        &&& self.post_count == other.post_count
    }

    /// A copy of the category.
    pub fn duplicate(&self) -> (r: Category)
        ensures
            self.alike(r),
    {
        Category {
            name: self.name.clone(),
            slug: self.slug.clone(),
            path: self.path.clone(),
            parent: copy_text(&self.parent),
            post_count: self.post_count,
        }
    }
}

impl Tag {
    /// Whether two tags hold the same content.
    pub open spec fn alike(self, other: Tag) -> bool {
        &&& self.name@ == other.name@
        &&& self.slug@ == other.slug@
        &&& self.path@ == other.path@
        &&& self.post_count == other.post_count
    }

    /// A copy of the tag.
    pub fn duplicate(&self) -> (r: Tag)
        ensures
            self.alike(r),
    {
        Tag {
            name: self.name.clone(),
            slug: self.slug.clone(),
            path: self.path.clone(),
            post_count: self.post_count,
        }
    }
}

/// Settings of the `giscus` comment widget.
#[derive(Clone, Debug)]
pub struct GiscusConfig {
    pub repo_owner: String,
    pub repo: String,
    pub repo_id: String,
    pub category: String,
    pub category_id: String,
    pub mapping: String,
    pub strict: bool,
    pub reactions_enabled: bool,
    pub theme: String,
    pub lang: String,
}

/// Settings of the `disqus` comment widget.
#[derive(Clone, Debug)]
pub struct DisqusConfig {
    pub shortname: String,
}

/// Which comment system a site uses.
#[derive(Clone, Debug)]
pub struct CommentsConfig {
    pub enable: bool,
    pub system: String,
    pub giscus: Option<GiscusConfig>,
    pub disqus: Option<DisqusConfig>,
}

/// Whether the site offers search, and over what.
#[derive(Clone, Debug)]
pub struct SearchConfig {
    pub enable: bool,
    pub full_content: bool,
}

/// The site settings as templates see them, with every default filled in.
#[derive(Clone, Debug)]
pub struct SiteConfig {
    pub title: String,
    pub subtitle: Option<String>,
    pub description: Option<String>,
    pub author: Option<String>,
    pub language: String,
    pub timezone: Option<String>,
    pub url: String,
    pub root: String,
    pub per_page: usize,
    pub theme: String,
    pub deploy: Option<Vec<(String, Value)>>,
    pub theme_config: Option<Vec<(String, Value)>>,
    pub comments: Option<CommentsConfig>,
    pub search: Option<SearchConfig>,
    pub extras: Vec<(String, Value)>,
}

impl Default for SiteConfig {
    fn default() -> (r: SiteConfig)
        ensures
            r.title@ == "Rust Hexo Site"@,
            r.subtitle.is_none(),
            r.description.is_none(),
            r.author.is_none(),
            r.language@ == "en"@,
            r.timezone.is_none(),
            r.url@ == "http://localhost:4000"@,
            r.root@ == "/"@,
            r.per_page == 10,
            r.theme@ == "landscape"@,
            r.deploy.is_none(),
            r.theme_config.is_none(),
            r.comments.is_none(),
            r.search.is_none(),
            r.extras@.len() == 0,
    {
        SiteConfig {
            title: "Rust Hexo Site".to_string(),
            subtitle: None,
            description: None,
            author: None,
            language: "en".to_string(),
            timezone: None,
            url: "http://localhost:4000".to_string(),
            root: "/".to_string(),
            per_page: 10,
            theme: "landscape".to_string(),
            deploy: None,
            theme_config: None,
            comments: None,
            search: None,
            extras: Vec::new(),
        }
    }
}

/// A value that can be copied in full: the copy holds the same content and
/// shares nothing with the value it was taken from.
pub trait Snapshot: Sized {
    /// Whether two values hold the same content.
    spec fn same(&self, other: &Self) -> bool;

    /// A deep copy of the value.
    fn snapshot(&self) -> (r: Self)
        ensures
            self.same(&r),
    ;
}

impl Snapshot for Post {
    open spec fn same(&self, other: &Post) -> bool {
        self.alike(*other)
    }

    fn snapshot(&self) -> (r: Post) {
        self.duplicate()
    }
}

impl Snapshot for Page {
    open spec fn same(&self, other: &Page) -> bool {
        self.alike(*other)
    }

    fn snapshot(&self) -> (r: Page) {
        self.duplicate()
    }
}

impl Snapshot for Category {
    open spec fn same(&self, other: &Category) -> bool {
        self.alike(*other)
    }

    fn snapshot(&self) -> (r: Category) {
        self.duplicate()
    }
}

impl Snapshot for Tag {
    open spec fn same(&self, other: &Tag) -> bool {
        self.alike(*other)
    }

    fn snapshot(&self) -> (r: Tag) {
        self.duplicate()
    }
}

/// Whether two lists hold values of the same content, in the same order.
pub open spec fn all_same<T: Snapshot>(a: Seq<T>, b: Seq<T>) -> bool {
    a.len() == b.len() && (forall|i: int| 0 <= i < a.len() ==> (#[trigger] a[i]).same(&b[i]))
}

/// A deep copy of a list.
pub fn copy_all<T: Snapshot>(list: &Vec<T>) -> (r: Vec<T>)
    ensures
        all_same(list@, r@),
{
    let mut out: Vec<T> = Vec::new();
    let mut i: usize = 0;
    while i < list.len()
        invariant
            i <= list.len(),
            out@.len() == i,
            forall|k: int| 0 <= k < i ==> (#[trigger] list@[k]).same(&out@[k]),
        decreases list.len() - i,
    {
        out.push(list[i].snapshot());
        i = i + 1;
    }
    out
}

/// The collections a template can walk.
#[derive(Clone, Debug)]
pub struct SiteLocals {
    pub posts: Vec<Post>,
    pub pages: Vec<Page>,
    pub categories: Vec<Category>,
    pub tags: Vec<Tag>,
}

/// Everything a template is rendered with.
#[derive(Clone, Debug)]
pub struct Locals {
    pub page: Vec<(String, Value)>,
    pub path: String,
    pub url: String,
    pub config: SiteConfig,
    pub theme: Vec<(String, Value)>,
    pub layout: String,
    pub site: SiteLocals,
}

/// A piece of content waiting to be rendered.
#[derive(Clone, Debug)]
pub struct RenderData {
    pub engine: Option<String>,
    pub content: Option<String>,
    pub source: Option<String>,
    pub titlecase: bool,
}

/// One route produced by a generator.
#[derive(Clone, Debug)]
pub struct GeneratorResult {
    pub path: String,
    pub data: Vec<(String, Value)>,
    pub layout: Option<Vec<String>>,
}

} // verus!
