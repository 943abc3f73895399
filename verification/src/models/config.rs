//! The site configuration, as written by the site's owner.

use vstd::prelude::*;
use crate::models::types::{copy_text, option_text};
use crate::models::value::Value;
use crate::text::{clone_strings, texts};

verus! {

/// Code highlighting options.
#[derive(Clone, Debug)]
pub struct HighlightConfig {
    pub enable: bool,
    pub line_number: bool,
    pub auto_detect: bool,
    pub tab_replace: Option<String>,
}

/// Markdown rendering options.
#[derive(Clone, Debug)]
pub struct MarkdownConfig {
    pub render_html: bool,
    pub plugins: Vec<String>,
}

/// Where and how the site is deployed.
#[derive(Clone, Debug)]
pub struct DeployConfig {
    pub type_: String,
    pub repo: String,
    pub branch: String,
    pub message: Option<String>,
}

/// Feed options.
#[derive(Clone, Debug)]
pub struct FeedConfig {
    pub enable: bool,
    pub rss: bool,
    pub atom: bool,
    pub path: Option<String>,
    pub limit: usize,
    pub content_type: String,
    pub order_by: String,
    pub icon: Option<String>,
    pub logo: Option<String>,
}

/// Search options.
#[derive(Clone, Debug)]
pub struct SearchConfig {
    pub enable: bool,
    pub path: String,
    pub field: String,
    pub content: bool,
    pub format: String,
}

/// Comment options.
#[derive(Clone, Debug)]
pub struct CommentsConfig {
    pub enable: bool,
    pub provider: String,
    pub repo_id: String,
    pub category_id: String,
}

/// The whole configuration file. Absent keys are `None`.
#[derive(Clone, Debug)]
pub struct Config {
    pub title: String,
    pub subtitle: Option<String>,
    pub description: Option<String>,
    pub author: Option<String>,
    pub language: Option<String>,
    pub timezone: Option<String>,
    pub url: Option<String>,
    pub root: Option<String>,
    pub permalink: Option<String>,
    pub source_dir: Option<String>,
    pub public_dir: Option<String>,
    pub tag_dir: Option<String>,
    pub archive_dir: Option<String>,
    pub category_dir: Option<String>,
    pub code_dir: Option<String>,
    pub i18n_dir: Option<String>,
    pub skip_render: Option<Vec<String>>,
    pub new_post_name: Option<String>,
    pub default_layout: Option<String>,
    pub titlecase: Option<bool>,
    pub external_link: Option<bool>,
    pub filename_case: Option<i32>,
    pub render_drafts: Option<bool>,
    pub post_asset_folder: Option<bool>,
    pub relative_link: Option<bool>,
    pub future: Option<bool>,
    pub highlight: Option<HighlightConfig>,
    pub default_category: Option<String>,
    pub category_map: Option<Vec<(String, String)>>,
    pub tag_map: Option<Vec<(String, String)>>,
    pub date_format: Option<String>,
    pub time_format: Option<String>,
    pub per_page: Option<i32>,
    pub pagination_dir: Option<String>,
    pub theme: Option<String>,
    pub theme_config: Option<Value>,
    pub deploy: Option<DeployConfig>,
    pub markdown: Option<MarkdownConfig>,
    pub feed: Option<FeedConfig>,
    pub search: Option<SearchConfig>,
    pub plugins: Option<Vec<String>>,
    pub comments: Option<CommentsConfig>,
}

/// An optional list of texts as a plain value.
pub open spec fn option_texts(list: Option<Vec<String>>) -> Option<Seq<Seq<char>>> {
    match list {
        Some(v) => Some(texts(v@)),
        None => None,
    }
}

/// A copy of an optional list of texts.
pub fn copy_texts(list: &Option<Vec<String>>) -> (r: Option<Vec<String>>)
    ensures
        option_texts(r) == option_texts(*list),
{
    match list {
        Some(v) => Some(clone_strings(v)),
        None => None,
    }
}

/// A list of pairs of texts as a plain value.
pub open spec fn pairs(list: Seq<(String, String)>) -> Seq<(Seq<char>, Seq<char>)> {
    list.map_values(|p: (String, String)| (p.0@, p.1@))
}

/// An optional list of pairs of texts as a plain value.
pub open spec fn option_pairs(list: Option<Vec<(String, String)>>) -> Option<
    Seq<(Seq<char>, Seq<char>)>,
> {
    match list {
        Some(v) => Some(pairs(v@)),
        None => None,
    }
}

/// A copy of an optional list of pairs of texts.
pub fn copy_pairs(list: &Option<Vec<(String, String)>>) -> (r: Option<Vec<(String, String)>>)
    ensures
        option_pairs(r) == option_pairs(*list),
{
    match list {
        Some(v) => {
            let mut out: Vec<(String, String)> = Vec::new();
            let mut i: usize = 0;
            while i < v.len()
                invariant
                    i <= v.len(),
                    out@.len() == i,
                    forall|k: int|
                        0 <= k < i ==> (#[trigger] out@[k]).0@ == v@[k].0@ && out@[k].1@
                            == v@[k].1@,
                decreases v.len() - i,
            {
                out.push((v[i].0.clone(), v[i].1.clone()));
                i = i + 1;
            }
            assert(pairs(out@) =~= pairs(v@));
            Some(out)
        },
        None => None,
    }
}

impl HighlightConfig {
    /// Whether two highlighting settings hold the same content.
    pub open spec fn alike(self, other: HighlightConfig) -> bool {
        &&& self.enable == other.enable
        &&& self.line_number == other.line_number
        &&& self.auto_detect == other.auto_detect
        &&& option_text(self.tab_replace) == option_text(other.tab_replace)
    }

    /// A deep copy of the settings.
    pub fn duplicate(&self) -> (r: HighlightConfig)
        ensures
            self.alike(r),
    {
        HighlightConfig {
            enable: self.enable,
            line_number: self.line_number,
            auto_detect: self.auto_detect,
            tab_replace: copy_text(&self.tab_replace),
        }
    }
}

impl MarkdownConfig {
    /// Whether two Markdown settings hold the same content.
    pub open spec fn alike(self, other: MarkdownConfig) -> bool {
        &&& self.render_html == other.render_html
        &&& texts(self.plugins@) == texts(other.plugins@)
    }

    /// A deep copy of the settings.
    pub fn duplicate(&self) -> (r: MarkdownConfig)
        ensures
            self.alike(r),
    {
        MarkdownConfig {
            render_html: self.render_html,
            plugins: clone_strings(&self.plugins),
        }
    }
}

impl DeployConfig {
    /// Whether two deployment settings hold the same content.
    pub open spec fn alike(self, other: DeployConfig) -> bool {
        &&& self.type_@ == other.type_@
        &&& self.repo@ == other.repo@
        &&& self.branch@ == other.branch@
        &&& option_text(self.message) == option_text(other.message)
    }

    /// A deep copy of the settings.
    pub fn duplicate(&self) -> (r: DeployConfig)
        ensures
            self.alike(r),
    {
        DeployConfig {
            type_: self.type_.clone(),
            repo: self.repo.clone(),
            branch: self.branch.clone(),
            message: copy_text(&self.message),
        }
    }
}

impl FeedConfig {
    /// Whether two feed settings hold the same content.
    pub open spec fn alike(self, other: FeedConfig) -> bool {
        &&& self.enable == other.enable
        &&& self.rss == other.rss
        &&& self.atom == other.atom
        &&& option_text(self.path) == option_text(other.path)
        &&& self.limit == other.limit
        &&& self.content_type@ == other.content_type@
        &&& self.order_by@ == other.order_by@
        &&& option_text(self.icon) == option_text(other.icon)
        &&& option_text(self.logo) == option_text(other.logo)
    }

    /// A deep copy of the settings.
    pub fn duplicate(&self) -> (r: FeedConfig)
        ensures
            self.alike(r),
    {
        FeedConfig {
            enable: self.enable,
            rss: self.rss,
            atom: self.atom,
            path: copy_text(&self.path),
            limit: self.limit,
            content_type: self.content_type.clone(),
            order_by: self.order_by.clone(),
            icon: copy_text(&self.icon),
            logo: copy_text(&self.logo),
        }
    }
}

impl SearchConfig {
    /// Whether two search settings hold the same content.
    pub open spec fn alike(self, other: SearchConfig) -> bool {
        &&& self.enable == other.enable
        &&& self.path@ == other.path@
        &&& self.field@ == other.field@
        &&& self.content == other.content
        &&& self.format@ == other.format@
    }

    /// A deep copy of the settings.
    pub fn duplicate(&self) -> (r: SearchConfig)
        ensures
            self.alike(r),
    {
        SearchConfig {
            enable: self.enable,
            path: self.path.clone(),
            field: self.field.clone(),
            content: self.content,
            format: self.format.clone(),
        }
    }
}

impl CommentsConfig {
    /// Whether two comment settings hold the same content.
    pub open spec fn alike(self, other: CommentsConfig) -> bool {
        &&& self.enable == other.enable
        &&& self.provider@ == other.provider@
        &&& self.repo_id@ == other.repo_id@
        &&& self.category_id@ == other.category_id@
    }

    /// A deep copy of the settings.
    pub fn duplicate(&self) -> (r: CommentsConfig)
        ensures
            self.alike(r),
    {
        CommentsConfig {
            enable: self.enable,
            provider: self.provider.clone(),
            repo_id: self.repo_id.clone(),
            category_id: self.category_id.clone(),
        }
    }
}

impl Config {
    /// Whether two configurations hold the same content.
    pub open spec fn alike(self, other: Config) -> bool {
        &&& self.title@ == other.title@
        &&& option_text(self.subtitle) == option_text(other.subtitle)
        &&& option_text(self.description) == option_text(other.description)
        &&& option_text(self.author) == option_text(other.author)
        &&& option_text(self.language) == option_text(other.language)
        &&& option_text(self.timezone) == option_text(other.timezone)
        &&& option_text(self.url) == option_text(other.url)
        &&& option_text(self.root) == option_text(other.root)
        &&& option_text(self.permalink) == option_text(other.permalink)
        &&& option_text(self.source_dir) == option_text(other.source_dir)
        &&& option_text(self.public_dir) == option_text(other.public_dir)
        &&& option_text(self.tag_dir) == option_text(other.tag_dir)
        &&& option_text(self.archive_dir) == option_text(other.archive_dir)
        &&& option_text(self.category_dir) == option_text(other.category_dir)
        &&& option_text(self.code_dir) == option_text(other.code_dir)
        &&& option_text(self.i18n_dir) == option_text(other.i18n_dir)
        &&& option_texts(self.skip_render) == option_texts(other.skip_render)
        &&& option_text(self.new_post_name) == option_text(other.new_post_name)
        &&& option_text(self.default_layout) == option_text(other.default_layout)
        &&& self.titlecase == other.titlecase
        &&& self.external_link == other.external_link
        &&& self.filename_case == other.filename_case
        &&& self.render_drafts == other.render_drafts
        &&& self.post_asset_folder == other.post_asset_folder
        &&& self.relative_link == other.relative_link
        &&& self.future == other.future
        &&& (match (self.highlight, other.highlight) {
            (Some(a), Some(b)) => a.alike(b),
            (None, None) => true,
            _ => false,
        })
        &&& option_text(self.default_category) == option_text(other.default_category)
        &&& option_pairs(self.category_map) == option_pairs(other.category_map)
        &&& option_pairs(self.tag_map) == option_pairs(other.tag_map)
        &&& option_text(self.date_format) == option_text(other.date_format)
        &&& option_text(self.time_format) == option_text(other.time_format)
        &&& self.per_page == other.per_page
        &&& option_text(self.pagination_dir) == option_text(other.pagination_dir)
        &&& option_text(self.theme) == option_text(other.theme)
        &&& (match (self.theme_config, other.theme_config) {
            (Some(a), Some(b)) => a.alike(b),
            (None, None) => true,
            _ => false,
        })
        &&& (match (self.deploy, other.deploy) {
            (Some(a), Some(b)) => a.alike(b),
            (None, None) => true,
            _ => false,
        })
        &&& (match (self.markdown, other.markdown) {
            (Some(a), Some(b)) => a.alike(b),
            (None, None) => true,
            _ => false,
        })
        &&& (match (self.feed, other.feed) {
            (Some(a), Some(b)) => a.alike(b),
            (None, None) => true,
            _ => false,
        })
        &&& (match (self.search, other.search) {
            (Some(a), Some(b)) => a.alike(b),
            (None, None) => true,
            _ => false,
        })
        &&& option_texts(self.plugins) == option_texts(other.plugins)
        &&& (match (self.comments, other.comments) {
            (Some(a), Some(b)) => a.alike(b),
            (None, None) => true,
            _ => false,
        })
    }

    /// A deep copy of the settings.
    pub fn duplicate(&self) -> (r: Config)
        ensures
            self.alike(r),
    {
        Config {
            title: self.title.clone(),
            subtitle: copy_text(&self.subtitle),
            description: copy_text(&self.description),
            author: copy_text(&self.author),
            language: copy_text(&self.language),
            timezone: copy_text(&self.timezone),
            url: copy_text(&self.url),
            root: copy_text(&self.root),
            permalink: copy_text(&self.permalink),
            source_dir: copy_text(&self.source_dir),
            public_dir: copy_text(&self.public_dir),
            tag_dir: copy_text(&self.tag_dir),
            archive_dir: copy_text(&self.archive_dir),
            category_dir: copy_text(&self.category_dir),
            code_dir: copy_text(&self.code_dir),
            i18n_dir: copy_text(&self.i18n_dir),
            skip_render: copy_texts(&self.skip_render),
            new_post_name: copy_text(&self.new_post_name),
            default_layout: copy_text(&self.default_layout),
            titlecase: self.titlecase,
            external_link: self.external_link,
            filename_case: self.filename_case,
            render_drafts: self.render_drafts,
            post_asset_folder: self.post_asset_folder,
            relative_link: self.relative_link,
            future: self.future,
            highlight: match &self.highlight {
                Some(c) => Some(c.duplicate()),
                None => None,
            },
            default_category: copy_text(&self.default_category),
            category_map: copy_pairs(&self.category_map),
            tag_map: copy_pairs(&self.tag_map),
            date_format: copy_text(&self.date_format),
            time_format: copy_text(&self.time_format),
            per_page: self.per_page,
            pagination_dir: copy_text(&self.pagination_dir),
            theme: copy_text(&self.theme),
            theme_config: match &self.theme_config {
                Some(v) => Some(v.duplicate()),
                None => None,
            },
            deploy: match &self.deploy {
                Some(c) => Some(c.duplicate()),
                None => None,
            },
            markdown: match &self.markdown {
                Some(c) => Some(c.duplicate()),
                None => None,
            },
            feed: match &self.feed {
                Some(c) => Some(c.duplicate()),
                None => None,
            },
            search: match &self.search {
                Some(c) => Some(c.duplicate()),
                None => None,
            },
            plugins: copy_texts(&self.plugins),
            comments: match &self.comments {
                Some(c) => Some(c.duplicate()),
                None => None,
            },
        }
    }
}

impl Config {
    /// Whether `self` is the configuration of a site that sets nothing: the
    /// title `My Blog`, the language `en`, the root `/`, the theme `default`,
    /// and every other key absent.
    pub open spec fn is_default(&self) -> bool {
        &&& self.title@ == "My Blog"@
        &&& self.subtitle.is_none()
        &&& self.description.is_none()
        &&& self.author.is_none()
        &&& self.language matches Some(l) && l@ == "en"@
        &&& self.timezone.is_none()
        &&& self.url.is_none()
        &&& self.root matches Some(r) && r@ == "/"@
        &&& self.permalink.is_none()
        &&& self.source_dir.is_none()
        &&& self.public_dir.is_none()
        &&& self.tag_dir.is_none()
        &&& self.archive_dir.is_none()
        &&& self.category_dir.is_none()
        &&& self.code_dir.is_none()
        &&& self.i18n_dir.is_none()
        &&& self.skip_render.is_none()
        &&& self.new_post_name.is_none()
        &&& self.default_layout.is_none()
        &&& self.titlecase.is_none()
        &&& self.external_link.is_none()
        &&& self.filename_case.is_none()
        &&& self.render_drafts.is_none()
        &&& self.post_asset_folder.is_none()
        &&& self.relative_link.is_none()
        &&& self.future.is_none()
        &&& self.highlight.is_none()
        &&& self.default_category.is_none()
        &&& self.category_map.is_none()
        &&& self.tag_map.is_none()
        &&& self.date_format.is_none()
        &&& self.time_format.is_none()
        &&& self.per_page.is_none()
        &&& self.pagination_dir.is_none()
        &&& self.theme matches Some(t) && t@ == "default"@
        &&& self.theme_config.is_none()
        &&& self.deploy.is_none()
        &&& self.markdown.is_none()
        &&& self.feed.is_none()
        &&& self.search.is_none()
        &&& self.plugins.is_none()
        &&& self.comments.is_none()
    }
}

impl Default for Config {
    fn default() -> (r: Config)
        ensures
            r.is_default(),
    {
        Config {
            title: "My Blog".to_string(),
            subtitle: None,
            description: None,
            author: None,
            language: Some("en".to_string()),
            timezone: None,
            url: None,
            root: Some("/".to_string()),
            permalink: None,
            source_dir: None,
            public_dir: None,
            tag_dir: None,
            archive_dir: None,
            category_dir: None,
            code_dir: None,
            i18n_dir: None,
            skip_render: None,
            new_post_name: None,
            default_layout: None,
            titlecase: None,
            external_link: None,
            filename_case: None,
            render_drafts: None,
            post_asset_folder: None,
            relative_link: None,
            future: None,
            highlight: None,
            default_category: None,
            category_map: None,
            tag_map: None,
            date_format: None,
            time_format: None,
            per_page: None,
            pagination_dir: None,
            theme: Some("default".to_string()),
            theme_config: None,
            deploy: None,
            markdown: None,
            feed: None,
            search: None,
            plugins: None,
            comments: None,
        }
    }
}

} // verus!
