//! The engine: the content store and the stages of one generation run.

use vstd::prelude::*;
use vstd::string::*;
use crate::generation::classify::{are_categories_of, are_tags_of, all_listed, classify, is_classified};
use crate::generation::content::{
    load_documents, loaded_in_order, newest_first, sort_newest_first, SourceFile,
};
use crate::models::config::Config;
use crate::models::types::{
    all_same, copy_all, copy_text, option_text, Category, Page, Post, SiteConfig, Tag, Timestamp,
};
use crate::models::value::{copy_entries, entries_alike, Value};
use crate::plugins::error::{PluginError, PluginHook};
use crate::plugins::loader::{
    in_load_order, is_summary_of, registry_after, LoadAttempt, LoadSummary,
};
use crate::plugins::manager::PluginManager;
use crate::plugins::{transform, ContentType, Plugin, PluginContext, PluginRecord};
use crate::text::{concat, join_path, path_join};

use crate::utils::reversed;

verus! {

/// One emit stage. The emit stages read the same content store and do not
/// depend on each other.
#[derive(Clone, Copy, Debug, PartialEq, Eq, Structural)]
pub enum EmitStage {
    ThemeAssets,
    Documents,
    Index,
    Categories,
    Tags,
    Archives,
    Rss,
    Atom,
    SearchIndex,
}

/// One stage of a generation run.
#[derive(Clone, Copy, Debug, PartialEq, Eq, Structural)]
pub enum Stage {
    /// Scan the plugin directory and load the plugins anew.
    ReloadPlugins,
    /// Notify every plugin of a checkpoint.
    Hook(PluginHook),
    /// Fill the content store from the source tree.
    LoadContent,
    /// Derive categories and tags.
    Classify,
    /// Produce one kind of output.
    Emit(EmitStage),
}

/// The stages of one run, in the order in which they are executed: where a
/// reload of the plugins is due they are loaded anew before anything else;
/// then
/// the `BeforeGenerate` checkpoint, content loading, classification, the
/// `BeforeRouteGenerate` checkpoint, the emit stages and the `AfterGenerate`
/// checkpoint.
pub open spec fn stage_plan(reload: bool) -> Seq<Stage> {
    let stages = seq![
        Stage::Hook(PluginHook::BeforeGenerate),
        Stage::LoadContent,
        Stage::Classify,
        Stage::Hook(PluginHook::BeforeRouteGenerate),
        Stage::Emit(EmitStage::ThemeAssets),
        Stage::Emit(EmitStage::Documents),
        Stage::Emit(EmitStage::Index),
        Stage::Emit(EmitStage::Categories),
        Stage::Emit(EmitStage::Tags),
        Stage::Emit(EmitStage::Archives),
        Stage::Emit(EmitStage::Rss),
        Stage::Emit(EmitStage::Atom),
        Stage::Emit(EmitStage::SearchIndex),
        Stage::Hook(PluginHook::AfterGenerate),
    ];
    if reload {
        seq![Stage::ReloadPlugins] + stages
    } else {
        stages
    }
}

/// The address under which the site is served: the configured URL followed
/// by the configured root, either of them alone, or `/` where neither is set.
pub open spec fn base_url_of(config: Config) -> Seq<char> {
    match (config.url, config.root) {
        (Some(url), Some(root)) => url@ + root@,
        (Some(url), None) => url@,
        (None, Some(root)) => root@,
        (None, None) => "/"@,
    }
}

/// The number of posts on an index page: the configured number where it is
/// positive, else ten.
pub open spec fn page_size_of(config: Config) -> nat {
    match config.per_page {
        Some(n) => if n > 0 {
            n as nat
        } else {
            10
        },
        None => 10,
    }
}

/// `value` where it is set, else `fallback`.
pub open spec fn text_or(value: Option<String>, fallback: Seq<char>) -> Seq<char> {
    match value {
        Some(s) => s@,
        None => fallback,
    }
}

/// Computes the address under which the site is served.
pub fn base_url(config: &Config) -> (r: String)
    ensures
        r@ == base_url_of(*config),
{
    match (&config.url, &config.root) {
        (Some(url), Some(root)) => concat(url.as_str(), root.as_str()),
        (Some(url), None) => url.clone(),
        (None, Some(root)) => root.clone(),
        (None, None) => "/".to_string(),
    }
}

/// Computes the number of posts on an index page.
pub fn page_size(config: &Config) -> (r: usize)
    ensures
        r == page_size_of(*config),
        r > 0,
{
    match config.per_page {
        Some(n) => if n > 0 {
            n as usize
        } else {
            10
        },
        None => 10,
    }
}

fn text_or_default(value: &Option<String>, fallback: &str) -> (r: String)
    ensures
        r@ == text_or(*value, fallback@),
{
    match value {
        Some(s) => s.clone(),
        None => fallback.to_string(),
    }
}

/// Whether `store` is what loading from `sources` at `now` leaves in a
/// content store, with the given plugins at work: the posts found, newest
/// first.
pub open spec fn is_loaded_store<P: Plugin + ?Sized>(
    records: Seq<PluginRecord<P>>,
    store: Seq<Post>,
    sources: Seq<SourceFile>,
    now: Timestamp,
) -> bool {
    exists|found: Seq<Post>|
        #[trigger] loaded_in_order(found, sources, records, now) && store == newest_first(found)
}

/// Whether `store` is the content that a build starts from: what loading
/// from `sources` leaves where a reload of the content is due, else `posts`
/// as they are.
pub open spec fn is_build_store<P: Plugin + ?Sized>(
    records: Seq<PluginRecord<P>>,
    reload: bool,
    posts: Seq<Post>,
    store: Seq<Post>,
    sources: Seq<SourceFile>,
    now: Timestamp,
) -> bool {
    if reload {
        is_loaded_store(records, store, sources, now)
    } else {
        store == posts
    }
}

/// What two checkpoints hand back for the record: what the first reported,
/// then what the second reported.
pub open spec fn checkpoint_warnings(
    first: Option<PluginError>,
    second: Option<PluginError>,
) -> Seq<PluginError> {
    let one = match first {
        Some(e) => seq![e],
        None => Seq::empty(),
    };
    let two = match second {
        Some(e) => seq![e],
        None => Seq::empty(),
    };
    one + two
}

/// Whether the names that the posts of `store` list can be counted.
pub open spec fn countable(store: Seq<Post>) -> bool {
    all_listed(store, "categories"@).len() <= usize::MAX && all_listed(store, "tags"@).len()
        <= usize::MAX
}

/// Whether `posts`, `categories` and `tags` are what the classification stage
/// makes of `store`: every post with the names its front matter lists, and
/// the categories and tags that the posts of `store` name.
pub open spec fn is_classified_store(
    store: Seq<Post>,
    posts: Seq<Post>,
    categories: Seq<Category>,
    tags: Seq<Tag>,
) -> bool {
    &&& posts.len() == store.len()
    &&& (forall|i: int| 0 <= i < store.len() ==> is_classified(store[i], #[trigger] posts[i]))
    &&& are_categories_of(categories, store)
    &&& are_tags_of(tags, store)
}

/// The engine of a site: where the site lives, how it is configured, the
/// content store, and the plugin host.
pub struct Engine<P: Plugin + ?Sized> {
    pub base_dir: String,
    pub source_dir: String,
    pub public_dir: String,
    pub theme_dir: String,
    pub scaffold_dir: String,
    pub config: Config,
    pub theme_config: Vec<(String, Value)>,
    pub posts: Vec<Post>,
    pub pages: Vec<Page>,
    pub categories: Vec<Category>,
    pub tags: Vec<Tag>,
    pub is_watching: bool,
    pub plugin_manager: PluginManager<P>,
}

impl<P: Plugin + ?Sized> Engine<P> {
    /// The invariant of the engine: that of its plugin host.
    pub open spec fn wf(&self) -> bool {
        self.plugin_manager.wf()
    }

    /// Whether the source tree is being watched.
    pub open spec fn watching(&self) -> bool {
        self.is_watching
    }

    /// An engine for the site at `base_dir`, with an empty content store and
    /// no plugins.
    pub fn new(base_dir: String, config: Config) -> (r: Result<Self, PluginError>)
        ensures
            r matches Ok(engine) && {
                &&& engine.wf()
                &&& engine.base_dir@ == base_dir@
                &&& engine.source_dir@ == path_join(base_dir@, "source"@)
                &&& engine.public_dir@ == path_join(base_dir@, "public"@)
                &&& engine.theme_dir@ == path_join(path_join(base_dir@, "themes"@), "default"@)
                &&& engine.scaffold_dir@ == path_join(base_dir@, "scaffolds"@)
                &&& engine.config == config
                &&& engine.theme_config@.len() == 0
                &&& engine.posts@.len() == 0
                &&& engine.pages@.len() == 0
                &&& engine.categories@.len() == 0
                &&& engine.tags@.len() == 0
                &&& !engine.watching()
                &&& engine.plugin_manager.names().len() == 0
                &&& !engine.plugin_manager.hot_reload()
            },
    {
        let source_dir = join_path(base_dir.as_str(), "source");
        let public_dir = join_path(base_dir.as_str(), "public");
        let themes = join_path(base_dir.as_str(), "themes");
        let theme_dir = join_path(themes.as_str(), "default");
        let scaffold_dir = join_path(base_dir.as_str(), "scaffolds");
        let plugin_manager = PluginManager::new(base_dir.clone(), PluginContext::default());
        Ok(
            Engine {
                base_dir,
                source_dir,
                public_dir,
                theme_dir,
                scaffold_dir,
                config,
                theme_config: Vec::new(),
                posts: Vec::new(),
                pages: Vec::new(),
                categories: Vec::new(),
                tags: Vec::new(),
                is_watching: false,
                plugin_manager,
            },
        )
    }

    /// Whether `context` is a snapshot of the site as it is now: the
    /// directories, the address of the site, and copies of the configuration
    /// and of the content store, with no document singled out.
    pub open spec fn is_snapshot(&self, context: PluginContext) -> bool {
        &&& context.base_dir@ == self.base_dir@
        &&& context.plugins_dir@ == path_join(self.base_dir@, "plugins"@)
        &&& context.theme_dir@ == self.theme_dir@
        &&& context.base_url@ == base_url_of(self.config)
        &&& context.output_dir@ == self.public_dir@
        &&& self.config.alike(context.config)
        &&& all_same(self.posts@, context.posts@)
        &&& all_same(self.pages@, context.pages@)
        &&& all_same(self.categories@, context.categories@)
        &&& all_same(self.tags@, context.tags@)
        &&& context.current_post is None
        &&& context.current_page is None
    }

    /// Takes the snapshot of the site that plugins are given.
    pub fn create_plugin_context(&self) -> (r: PluginContext)
        ensures
            self.is_snapshot(r),
    {
        PluginContext {
            base_dir: self.base_dir.clone(),
            plugins_dir: join_path(self.base_dir.as_str(), "plugins"),
            theme_dir: self.theme_dir.clone(),
            base_url: base_url(&self.config),
            output_dir: self.public_dir.clone(),
            config: self.config.duplicate(),
            posts: copy_all(&self.posts),
            pages: copy_all(&self.pages),
            categories: copy_all(&self.categories),
            tags: copy_all(&self.tags),
            current_post: None,
            current_page: None,
        }
    }

    /// The site settings as templates see them, with every default filled in.
    pub fn create_site_config(&self) -> (r: Result<SiteConfig, PluginError>)
        ensures
            r matches Ok(site) && {
                &&& site.title@ == self.config.title@
                &&& option_text(site.subtitle) == option_text(self.config.subtitle)
                &&& option_text(site.description) == option_text(self.config.description)
                &&& option_text(site.author) == option_text(self.config.author)
                &&& option_text(site.timezone) == option_text(self.config.timezone)
                &&& site.language@ == text_or(self.config.language, "en"@)
                &&& site.url@ == text_or(self.config.url, "http://localhost"@)
                &&& site.root@ == text_or(self.config.root, "/"@)
                &&& site.per_page == page_size_of(self.config)
                &&& site.theme@ == text_or(self.config.theme, "default"@)
                &&& site.deploy is None
                &&& site.theme_config matches Some(theme) && entries_alike(
                    self.theme_config@,
                    theme@,
                )
                &&& site.comments is None
                &&& site.search is None
                &&& site.extras@.len() == 0
            },
    {
        Ok(
            SiteConfig {
                title: self.config.title.clone(),
                subtitle: copy_text(&self.config.subtitle),
                description: copy_text(&self.config.description),
                author: copy_text(&self.config.author),
                language: text_or_default(&self.config.language, "en"),
                timezone: copy_text(&self.config.timezone),
                url: text_or_default(&self.config.url, "http://localhost"),
                root: text_or_default(&self.config.root, "/"),
                per_page: page_size(&self.config),
                theme: text_or_default(&self.config.theme, "default"),
                deploy: None,
                theme_config: Some(copy_entries(&self.theme_config)),
                comments: None,
                search: None,
                extras: Vec::new(),
            },
        )
    }

    /// Initialises the engine: hands the plugins a fresh snapshot and takes in
    /// the outcome of a first round of plugin loading.
    pub fn init(&mut self, attempts: Vec<LoadAttempt<P>>) -> (r: Result<LoadSummary, PluginError>)
        requires
            old(self).wf(),
        ensures
            final(self).wf(),
            r matches Ok(summary) && is_summary_of(summary, attempts@),
            final(self).plugin_manager.registry() == registry_after(
                old(self).plugin_manager.registry(),
                in_load_order(attempts@),
            ),
            final(self).plugin_manager.initialized(),
            final(self).plugin_manager.hot_reload() == old(self).plugin_manager.hot_reload(),
            final(self).is_snapshot(final(self).plugin_manager.context()),
            final(self).content_unchanged(*old(self)),
            final(self).output_unchanged(*old(self)),
    {
        let context = self.create_plugin_context();
        self.plugin_manager.set_context(context);
        self.plugin_manager.init(attempts)
    }

    /// Pipes `content` through the plugins.
    pub fn process_content(&self, content: &str, content_type: ContentType) -> (r: String)
        ensures
            r@ == transform(self.plugin_manager.records(), content@, content_type),
    {
        match self.plugin_manager.process_content(content, content_type) {
            Ok(processed) => processed,
            Err(_) => content.to_string(),
        }
    }

    /// Pipes Markdown through the plugins.
    pub fn process_markdown(&self, content: &str) -> (r: String)
        ensures
            r@ == transform(self.plugin_manager.records(), content@, ContentType::Markdown),
    {
        self.process_content(content, ContentType::Markdown)
    }

    /// Pipes HTML through the plugins.
    pub fn process_html(&self, content: &str) -> (r: String)
        ensures
            r@ == transform(self.plugin_manager.records(), content@, ContentType::HTML),
    {
        self.process_content(content, ContentType::HTML)
    }

    /// Replaces the configuration and refreshes the snapshot given to plugins.
    pub fn load_config(&mut self, config: Config) -> (r: Result<(), PluginError>)
        ensures
            r is Ok,
            final(self).wf() == old(self).wf(),
            final(self).config == config,
            final(self).is_snapshot(final(self).plugin_manager.context()),
            final(self).plugin_manager.registry() == old(self).plugin_manager.registry(),
            final(self).theme_config == old(self).theme_config,
            final(self).posts == old(self).posts,
            final(self).pages == old(self).pages,
            final(self).categories == old(self).categories,
            final(self).tags == old(self).tags,
            final(self).output_unchanged(*old(self)),
    {
        self.config = config;
        let context = self.create_plugin_context();
        self.plugin_manager.set_context(context);
        Ok(())
    }

    /// Fills the content store from the files of the source tree.
    ///
    /// Every file is loaded as a document; the posts found replace the posts
    /// of the store, sorted from newest to oldest. A source tree without a
    /// post leaves the store empty.
    pub fn load_posts_and_pages(&mut self, sources: &Vec<SourceFile>, now: Timestamp) -> (r:
        Result<(), PluginError>)
        ensures
            r is Ok,
            final(self).wf() == old(self).wf(),
            old(self).loads(final(self).posts@, sources@, now),
            final(self).plugin_manager == old(self).plugin_manager,
            final(self).config == old(self).config,
            final(self).theme_config == old(self).theme_config,
            final(self).pages == old(self).pages,
            final(self).categories == old(self).categories,
            final(self).tags == old(self).tags,
            final(self).output_unchanged(*old(self)),
    {
        let found = load_documents(&self.plugin_manager, sources, now);
        let ghost loaded = found@;
        self.posts = sort_newest_first(found);
        assert(loaded_in_order(loaded, sources@, old(self).plugin_manager.records(), now));
        Ok(())
    }

    /// Runs the classification stage on the content store. Where the names
    /// that the posts list cannot be counted the store is left as it is and
    /// an error is reported.
    pub fn process_categories_and_tags(&mut self) -> (r: Result<(), PluginError>)
        ensures
            final(self).wf() == old(self).wf(),
            final(self).plugin_manager == old(self).plugin_manager,
            final(self).config == old(self).config,
            final(self).theme_config == old(self).theme_config,
            final(self).pages == old(self).pages,
            final(self).output_unchanged(*old(self)),
            r is Ok <==> (all_listed(old(self).posts@, "categories"@).len() <= usize::MAX
                && all_listed(old(self).posts@, "tags"@).len() <= usize::MAX),
            r is Ok ==> {
                &&& final(self).posts@.len() == old(self).posts@.len()
                &&& (forall|i: int|
                    0 <= i < old(self).posts@.len() ==> is_classified(
                        old(self).posts@[i],
                        #[trigger] final(self).posts@[i],
                    ))
                &&& are_categories_of(final(self).categories@, old(self).posts@)
                &&& are_tags_of(final(self).tags@, old(self).posts@)
            },
            r is Err ==> final(self).posts == old(self).posts && final(self).categories == old(
                self,
            ).categories && final(self).tags == old(self).tags,
    {
        match crate::generation::classify::classify_checked(&mut self.posts) {
            Some((categories, tags)) => {
                self.categories = categories;
                self.tags = tags;
                Ok(())
            },
            None => Err(
                PluginError::Other("too many categories or tags to count".to_string()),
            ),
        }
    }

    /// Whether the configuration, the theme settings and the content store
    /// of `self` are those of `other`.
    pub open spec fn content_unchanged(&self, other: Self) -> bool {
        &&& self.config == other.config
        &&& self.theme_config == other.theme_config
        &&& self.posts == other.posts
        &&& self.pages == other.pages
        &&& self.categories == other.categories
        &&& self.tags == other.tags
    }

    /// Whether the directories of `self` are those of `other`.
    pub open spec fn dirs_unchanged(&self, other: Self) -> bool {
        &&& self.base_dir == other.base_dir
        &&& self.source_dir == other.source_dir
        &&& self.public_dir == other.public_dir
        &&& self.theme_dir == other.theme_dir
        &&& self.scaffold_dir == other.scaffold_dir
    }

    /// Whether the directories and the watch flag of `self` are those of
    /// `other`.
    pub open spec fn output_unchanged(&self, other: Self) -> bool {
        &&& self.base_dir == other.base_dir
        &&& self.source_dir == other.source_dir
        &&& self.public_dir == other.public_dir
        &&& self.theme_dir == other.theme_dir
        &&& self.scaffold_dir == other.scaffold_dir
        &&& self.is_watching == other.is_watching
    }

    /// The stages of the next run, in order.
    pub fn stages(&self) -> (r: Vec<Stage>)
        ensures
            r@ == stage_plan(self.reload_due()),
    {
        let mut out: Vec<Stage> = Vec::new();
        if self.needs_plugin_reload() {
            out.push(Stage::ReloadPlugins);
        }
        out.push(Stage::Hook(PluginHook::BeforeGenerate));
        out.push(Stage::LoadContent);
        out.push(Stage::Classify);
        out.push(Stage::Hook(PluginHook::BeforeRouteGenerate));
        out.push(Stage::Emit(EmitStage::ThemeAssets));
        out.push(Stage::Emit(EmitStage::Documents));
        out.push(Stage::Emit(EmitStage::Index));
        out.push(Stage::Emit(EmitStage::Categories));
        out.push(Stage::Emit(EmitStage::Tags));
        out.push(Stage::Emit(EmitStage::Archives));
        out.push(Stage::Emit(EmitStage::Rss));
        out.push(Stage::Emit(EmitStage::Atom));
        out.push(Stage::Emit(EmitStage::SearchIndex));
        out.push(Stage::Hook(PluginHook::AfterGenerate));
        assert(out@ =~= stage_plan(self.reload_due()));
        out
    }

    /// Whether a run has to load the content anew: the store is empty, or the
    /// source tree is being watched and may have changed.
    pub fn needs_content_reload(&self) -> (r: bool)
        ensures
            r == (self.posts@.len() == 0 || self.watching()),
    {
        self.posts.len() == 0 || self.is_watching
    }

    /// Notifies the plugins of a checkpoint of the run. A failure is handed
    /// back for the record and never ends the run.
    pub fn checkpoint(&self, hook: PluginHook) -> (warning: Option<PluginError>)
        requires
            self.wf(),
        ensures
            crate::generation::site::is_checkpoint_of(
                warning,
                hook,
                self.plugin_manager.registry(),
            ),
            self.plugin_manager.names().len() == 0 ==> warning is None,
    {
        match self.plugin_manager.execute_hook(&hook) {
            Ok(()) => None,
            Err(e) => Some(e),
        }
    }

    /// Tears the plugins down: the `Clean` checkpoint first, then every
    /// plugin's own teardown. Failures are handed back for the record; the
    /// teardown itself always succeeds.
    pub fn cleanup(&mut self) -> (r: Result<Vec<PluginError>, PluginError>)
        requires
            old(self).wf(),
        ensures
            r matches Ok(warnings) && crate::generation::site::is_teardown_of(
                warnings@,
                old(self).plugin_manager.registry(),
            ),
            old(self).plugin_manager.names().len() == 0 ==> (r matches Ok(warnings)
                && warnings@.len() == 0),
            *final(self) == *old(self),
    {
        Ok(crate::generation::site::teardown(&self.plugin_manager))
    }

    /// Notes that the source tree is being watched.
    pub fn watch(&mut self) -> (r: Result<(), PluginError>)
        ensures
            r is Ok,
            final(self).watching(),
            final(self).wf() == old(self).wf(),
            final(self).content_unchanged(*old(self)),
            final(self).dirs_unchanged(*old(self)),
            final(self).plugin_manager == old(self).plugin_manager,
    {
        self.is_watching = true;
        Ok(())
    }

    /// Stops the watch; the watch loop sees it at its next turn.
    pub fn unwatch(&mut self)
        ensures
            !final(self).watching(),
            final(self).wf() == old(self).wf(),
            final(self).content_unchanged(*old(self)),
            final(self).dirs_unchanged(*old(self)),
            final(self).plugin_manager == old(self).plugin_manager,
    {
        self.is_watching = false;
    }

    /// Tells whether the source tree is being watched.
    pub fn is_watching(&self) -> (r: bool)
        ensures
            r == self.watching(),
    {
        self.is_watching
    }

    /// Switches plugin hot reload on.
    pub fn start_plugin_hot_reload(&mut self) -> (r: Result<(), PluginError>)
        ensures
            r is Ok,
            final(self).wf() == old(self).wf(),
            final(self).plugin_manager.hot_reload(),
            final(self).plugin_manager.registry() == old(self).plugin_manager.registry(),
            final(self).plugin_manager.context() == old(self).plugin_manager.context(),
            final(self).content_unchanged(*old(self)),
            final(self).output_unchanged(*old(self)),
    {
        self.plugin_manager.start_hot_reload()
    }

    /// Switches plugin hot reload off.
    pub fn disable_plugin_hot_reload(&mut self)
        ensures
            final(self).wf() == old(self).wf(),
            !final(self).plugin_manager.hot_reload(),
            final(self).plugin_manager.registry() == old(self).plugin_manager.registry(),
            final(self).plugin_manager.context() == old(self).plugin_manager.context(),
            final(self).content_unchanged(*old(self)),
            final(self).output_unchanged(*old(self)),
    {
        self.plugin_manager.stop_hot_reload();
    }
}

/// A new post, ready to be written: where, and with what text.
#[derive(Clone, Debug)]
pub struct PostDraft {
    pub target: String,
    pub content: String,
}

/// The text of a new post: a front-matter block with the title and the
/// moment of writing as seen at `offset` seconds east of UTC, a heading, and
/// a line that invites to write.
pub open spec fn draft_text(title: Seq<char>, now: Timestamp, offset: int) -> Seq<char> {
    "---\ntitle: "@ + title + "\ndate: "@ + crate::utils::time::stamp_text(now, offset)
        + "\n---\n\n# "@ + title + "\n\n在这里开始你的创作...\n"@
}

/// Where a new post goes: into `_posts` of the source directory, under the
/// slug of its title with the extension `md`. A path that is given leads
/// there; where it names a directory the file name is added to it.
pub open spec fn draft_target(
    source_dir: Seq<char>,
    slug: Seq<char>,
    path: Option<Seq<char>>,
    path_is_dir: bool,
) -> Seq<char> {
    let posts = path_join(source_dir, "_posts"@);
    let file_name = slug + ".md"@;
    match path {
        Some(p) => if path_is_dir {
            path_join(path_join(posts, p), file_name)
        } else {
            path_join(posts, p)
        },
        None => path_join(posts, file_name),
    }
}

/// The merged theme configuration after one more entry of the site's own
/// theme settings: a key that is there gets the new value, a new key goes to
/// the end.
pub open spec fn with_setting(
    settings: Seq<(String, Value)>,
    key: String,
    value: Value,
) -> Seq<(String, Value)>
    decreases settings.len(),
{
    if settings.len() == 0 {
        seq![(key, value)]
    } else if settings[0].0@ == key@ {
        seq![(settings[0].0, value)] + settings.skip(1)
    } else {
        seq![settings[0]] + with_setting(settings.skip(1), key, value)
    }
}

/// The theme configuration with all entries of the site's own theme
/// settings merged in, in order.
pub open spec fn with_settings(
    settings: Seq<(String, Value)>,
    more: Seq<(String, Value)>,
) -> Seq<(String, Value)>
    decreases more.len(),
{
    if more.len() == 0 {
        settings
    } else {
        with_setting(with_settings(settings, more.drop_last()), more.last().0, more.last().1)
    }
}

proof fn lemma_setting_new(settings: Seq<(String, Value)>, key: String, value: Value)
    requires
        forall|k: int| 0 <= k < settings.len() ==> (#[trigger] settings[k]).0@ != key@,
    ensures
        with_setting(settings, key, value) == settings.push((key, value)),
    decreases settings.len(),
{
    if settings.len() > 0 {
        let rest = settings.skip(1);
        assert forall|k: int| 0 <= k < rest.len() implies (#[trigger] rest[k]).0@ != key@ by {
            assert(rest[k] == settings[k + 1]);
        }
        lemma_setting_new(rest, key, value);
        assert(seq![settings[0]] + rest.push((key, value)) =~= settings.push((key, value)));
    } else {
        assert(seq![(key, value)] =~= settings.push((key, value)));
    }
}

proof fn lemma_setting_at(settings: Seq<(String, Value)>, i: int, key: String, value: Value)
    requires
        0 <= i < settings.len(),
        settings[i].0@ == key@,
        forall|k: int| 0 <= k < i ==> (#[trigger] settings[k]).0@ != key@,
    ensures
        with_setting(settings, key, value) == settings.update(i, (settings[i].0, value)),
    decreases i,
{
    let rest = settings.skip(1);
    if i == 0 {
        assert(seq![(settings[0].0, value)] + rest =~= settings.update(0, (settings[0].0, value)));
    } else {
        assert(rest[i - 1] == settings[i]);
        assert forall|k: int| 0 <= k < i - 1 implies (#[trigger] rest[k]).0@ != key@ by {
            assert(rest[k] == settings[k + 1]);
        }
        lemma_setting_at(rest, i - 1, key, value);
        assert(seq![settings[0]] + rest.update(i - 1, (settings[i].0, value)) =~= settings.update(
            i,
            (settings[i].0, value),
        ));
    }
}

/// Merges one entry into a theme configuration.
pub fn merge_setting(settings: &mut Vec<(String, Value)>, key: String, value: Value)
    ensures
        final(settings)@ == with_setting(old(settings)@, key, value),
{
    let mut i: usize = 0;
    while i < settings.len()
        invariant
            i <= settings.len(),
            settings@ == old(settings)@,
            forall|k: int| 0 <= k < i ==> (#[trigger] settings@[k]).0@ != key@,
        decreases settings.len() - i,
    {
        if crate::text::same_text(settings[i].0.as_str(), key.as_str()) {
            proof {
                lemma_setting_at(old(settings)@, i as int, key, value);
            }
            settings[i].1 = value;
            assert(settings@ =~= old(settings)@.update(i as int, (old(settings)@[i as int].0, value)));
            return ;
        }
        i = i + 1;
    }
    proof {
        lemma_setting_new(old(settings)@, key, value);
    }
    settings.push((key, value));
}

/// Merges the site's own theme settings into the configuration that the
/// theme brings along.
pub fn load_theme_config(theme: Vec<(String, Value)>, site_theme: Option<Value>) -> (r: Result<
    Vec<(String, Value)>,
    PluginError,
>)
    ensures
        r matches Ok(merged) && merged@ == (match site_theme {
            Some(Value::Mapping(entries)) => with_settings(theme@, entries@),
            _ => theme@,
        }),
{
    let mut merged = theme;
    match site_theme {
        Some(Value::Mapping(entries)) => {
            let ghost all = entries@;
            let mut pending = reversed(entries);
            let ghost mut done: int = 0;
            assert(all.take(0) =~= Seq::<(String, Value)>::empty());
            while pending.len() > 0
                invariant
                    0 <= done,
                    done + pending@.len() == all.len(),
                    forall|k: int|
                        0 <= k < pending@.len() ==> #[trigger] pending@[k] == all[all.len() - 1
                            - k],
                    merged@ == with_settings(theme@, all.take(done)),
                decreases pending@.len(),
            {
                let entry = pending.pop().unwrap();
                proof {
                    assert(entry == all[done]);
                    assert(all.take(done + 1).drop_last() == all.take(done));
                    assert(all.take(done + 1).last() == all[done]);
                }
                merge_setting(&mut merged, entry.0, entry.1);
                proof {
                    done = done + 1;
                }
            }
            assert(all.take(done) == all);
        },
        _ => {},
    }
    Ok(merged)
}

impl<P: Plugin + ?Sized> Engine<P> {
    /// Prepares a new post: where it goes and what it starts with, dated
    /// `now` as seen at `offset` seconds east of UTC. Whether the target is
    /// free is for the caller to see.
    pub fn new_post(
        &self,
        title: &str,
        path: Option<&str>,
        path_is_dir: bool,
        now: &Timestamp,
        offset: i32,
    ) -> (r: Result<PostDraft, PluginError>)
        ensures
            r matches Ok(draft) && draft.target@ == draft_target(
                self.source_dir@,
                crate::utils::slug_text(title@),
                match path {
                    Some(p) => Some(p@),
                    None => None,
                },
                path_is_dir,
            ) && draft.content@ == draft_text(title@, *now, offset as int),
    {
        let slug = crate::utils::slugify(title);
        let mut file_name = slug;
        file_name.append(".md");
        let posts = join_path(self.source_dir.as_str(), "_posts");
        let target = match path {
            Some(p) => {
                let given = join_path(posts.as_str(), p);
                if path_is_dir {
                    join_path(given.as_str(), file_name.as_str())
                } else {
                    given
                }
            },
            None => join_path(posts.as_str(), file_name.as_str()),
        };
        let mut content = "---\ntitle: ".to_string();
        content.append(title);
        content.append("\ndate: ");
        let stamp = crate::utils::time::format_stamp(now, offset);
        content.append(stamp.as_str());
        content.append("\n---\n\n# ");
        content.append(title);
        content.append("\n\n在这里开始你的创作...\n");
        assert(content@ =~= draft_text(title@, *now, offset as int));
        Ok(PostDraft { target, content })
    }

    /// The error for a new post whose target is taken.
    pub fn post_exists_error(target: &str) -> (e: PluginError)
        ensures
            e matches PluginError::Other(message) && message@ == "文件已存在: "@ + target@,
    {
        let mut message = "文件已存在: ".to_string();
        message.append(target);
        PluginError::Other(message)
    }

    /// Makes a new page. Pages are not made yet; nothing happens.
    pub fn new_page(&self, title: &str, path: &str) -> (r: Result<(), PluginError>)
        ensures
            r is Ok,
    {
        Ok(())
    }

    /// Deploys the site. No deployment is set up; nothing happens.
    pub fn deploy(&self) -> (r: Result<(), PluginError>)
        ensures
            r is Ok,
    {
        Ok(())
    }

    /// Removes what a build produced. Nothing is removed yet.
    pub fn clean(&self) -> (r: Result<(), PluginError>)
        ensures
            r is Ok,
    {
        Ok(())
    }

    /// Whether the site has to be built before it can be served: the output
    /// directory is missing or empty.
    pub fn needs_build_before_serving(is_there: bool, is_empty: bool) -> (r: bool)
        ensures
            r == (!is_there || is_empty),
    {
        !is_there || is_empty
    }

    /// The static files of the site: from `static` of the source directory
    /// to the output directory.
    pub fn copy_static_files(&self) -> (r: Result<crate::generation::site::AssetCopy, PluginError>)
        ensures
            r matches Ok(copy) && copy.from@ == path_join(self.source_dir@, "static"@) && copy.to@
                == self.public_dir@,
    {
        Ok(
            crate::generation::site::AssetCopy {
                from: join_path(self.source_dir.as_str(), "static"),
                to: self.public_dir.clone(),
            },
        )
    }

    /// The static files of the theme: from `source` of the theme directory
    /// to `assets` of the output directory.
    pub fn copy_theme_assets(&self) -> (r: Result<crate::generation::site::AssetCopy, PluginError>)
        ensures
            r matches Ok(copy) && copy.from@ == path_join(self.theme_dir@, "source"@) && copy.to@
                == path_join(self.public_dir@, "assets"@),
    {
        Ok(
            crate::generation::site::AssetCopy {
                from: join_path(self.theme_dir.as_str(), "source"),
                to: join_path(self.public_dir.as_str(), "assets"),
            },
        )
    }
}

impl<P: Plugin + ?Sized> Engine<P> {
    /// Whether a build loads the content anew: always where `always` holds,
    /// else where the store holds no post or the source tree is being
    /// watched.
    pub open spec fn content_reload(&self, always: bool) -> bool {
        always || self.posts@.len() == 0 || self.watching()
    }

    /// Whether the plugins are to be loaded anew at the top of the next
    /// build: hot reload is switched on, or the host was never initialised.
    pub open spec fn reload_due(&self) -> bool {
        self.plugin_manager.hot_reload() || !self.plugin_manager.initialized()
    }

    /// Tells whether the plugins are to be loaded anew at the top of the next
    /// build. Where they are, the outcome of a round of loading is to be
    /// handed to the build.
    pub fn needs_plugin_reload(&self) -> (r: bool)
        ensures
            r == self.reload_due(),
    {
        self.plugin_manager.is_hot_reload_enabled() || !self.plugin_manager.is_initialized()
    }

    /// The registry with which a build works: where a reload is due, the
    /// registry after the loaded plugins of `attempts` were registered in the
    /// order of their file names, else the registry as it is.
    pub open spec fn registry_for(&self, attempts: Seq<LoadAttempt<P>>) -> Seq<
        (Seq<char>, PluginRecord<P>),
    > {
        if self.reload_due() {
            registry_after(self.plugin_manager.registry(), in_load_order(attempts))
        } else {
            self.plugin_manager.registry()
        }
    }

    /// The top of a build: where a reload of the plugins is due, the host is
    /// given a snapshot of the site and takes in the outcome of a round of
    /// loading. Stale instances are not unloaded; a plugin of the same name
    /// takes their place.
    fn take_in(&mut self, attempts: Vec<LoadAttempt<P>>)
        requires
            old(self).wf(),
        ensures
            final(self).wf(),
            final(self).plugin_manager.registry() == old(self).registry_for(attempts@),
            final(self).plugin_manager.hot_reload() == old(self).plugin_manager.hot_reload(),
            final(self).plugin_manager.initialized(),
            final(self).content_unchanged(*old(self)),
            final(self).output_unchanged(*old(self)),
    {
        if self.needs_plugin_reload() {
            let _ = self.init(attempts);
        }
    }

    /// Whether the content store of `self` is what the store stage of a
    /// build leaves. There is a content `store` that the stage starts from:
    /// what loading from `sources` with the plugins `records` leaves where
    /// `reload` holds, else `posts`. The stage succeeds exactly where the
    /// names listed in `store` can be counted; then the store holds the
    /// classification of `store`. Where it fails, the store holds `store`
    /// with the categories and tags that were there.
    pub open spec fn is_store_after(
        &self,
        records: Seq<PluginRecord<P>>,
        reload: bool,
        posts: Seq<Post>,
        categories: Vec<Category>,
        tags: Vec<Tag>,
        sources: Seq<SourceFile>,
        now: Timestamp,
        ok: bool,
    ) -> bool {
        exists|store: Seq<Post>|
            {
                &&& #[trigger] is_build_store(records, reload, posts, store, sources, now)
                &&& (ok <==> countable(store))
                &&& (ok ==> is_classified_store(store, self.posts@, self.categories@, self.tags@))
                &&& (!ok ==> self.posts@ == store && self.categories == categories && self.tags
                    == tags)
            }
    }

    /// Brings the content store up to date: loads the content from `sources`
    /// where `always` holds, the store is empty or the source tree is being
    /// watched, and classifies it.
    fn build_store(&mut self, always: bool, sources: &Vec<SourceFile>, now: &Timestamp) -> (r:
        Result<(), PluginError>)
        ensures
            final(self).wf() == old(self).wf(),
            final(self).plugin_manager == old(self).plugin_manager,
            final(self).config == old(self).config,
            final(self).theme_config == old(self).theme_config,
            final(self).pages == old(self).pages,
            final(self).output_unchanged(*old(self)),
            final(self).is_store_after(
                old(self).plugin_manager.records(),
                old(self).content_reload(always),
                old(self).posts@,
                old(self).categories,
                old(self).tags,
                sources@,
                *now,
                r is Ok,
            ),
            r is Ok ==> are_categories_of(final(self).categories@, final(self).posts@)
                && are_tags_of(final(self).tags@, final(self).posts@),
    {
        if always || self.needs_content_reload() {
            let _ = self.load_posts_and_pages(sources, *now);
        }
        let ghost before = self.posts@;
        assert(is_build_store(
            old(self).plugin_manager.records(),
            old(self).content_reload(always),
            old(self).posts@,
            before,
            sources@,
            *now,
        ));
        match self.process_categories_and_tags() {
            Ok(()) => {},
            Err(e) => {
                return Err(e);
            },
        }
        assert(is_classified_store(before, self.posts@, self.categories@, self.tags@));
        proof {
            assert forall|i: int| 0 <= i < before.len() implies (#[trigger] self.posts@[i]).front_matter
                == before[i].front_matter by {
                assert(is_classified(before[i], self.posts@[i]));
            }
            crate::generation::classify::lemma_listed_by_front_matter(
                before,
                self.posts@,
                "categories"@,
            );
            crate::generation::classify::lemma_listed_by_front_matter(before, self.posts@, "tags"@);
        }
        Ok(())
    }

    /// Builds the site, up to the writing.
    ///
    /// Where a reload of the plugins is due, the outcome `attempts` of a
    /// round of loading is taken in first. Then the content is loaded from
    /// `sources` where the store is empty or the source tree is being
    /// watched, and classified; the plugins get a fresh snapshot, the
    /// `BeforeGenerate` checkpoint is passed and the emit stages run. What
    /// comes back says what is to be written.
    pub fn generate(
        &mut self,
        sources: &Vec<SourceFile>,
        attempts: Vec<LoadAttempt<P>>,
        now: &Timestamp,
    ) -> (r: Result<crate::generation::site::SiteOutput, PluginError>)
        requires
            old(self).wf(),
        ensures
            final(self).wf(),
            final(self).config == old(self).config,
            final(self).output_unchanged(*old(self)),
            final(self).plugin_manager.registry() == old(self).registry_for(attempts@),
            final(self).plugin_manager.hot_reload() == old(self).plugin_manager.hot_reload(),
            final(self).plugin_manager.initialized(),
            final(self).theme_config == old(self).theme_config,
            final(self).pages == old(self).pages,
            final(self).is_store_after(
                final(self).plugin_manager.records(),
                old(self).content_reload(false),
                old(self).posts@,
                old(self).categories,
                old(self).tags,
                sources@,
                *now,
                r is Ok,
            ),
            r matches Ok(out) ==> {
                &&& final(self).is_snapshot(final(self).plugin_manager.context())
                &&& are_categories_of(final(self).categories@, final(self).posts@)
                &&& are_tags_of(final(self).tags@, final(self).posts@)
                &&& final(self).emits(out, *now)
                &&& crate::generation::site::is_checkpoint_of(
                    out.warning,
                    PluginHook::BeforeGenerate,
                    final(self).plugin_manager.registry(),
                )
            },
    {
        self.take_in(attempts);
        self.build_store(false, sources, now)?;
        let context = self.create_plugin_context();
        self.plugin_manager.set_context(context);
        let generator = crate::generation::generator::HtmlGenerator::new_with_plugin_manager(
            self.public_dir.clone(),
            self.config.duplicate(),
            &self.plugin_manager,
        );
        generator.generate(&self.posts, now)
    }

    /// Whether `store` is what loading from `sources` at `now` leaves in the
    /// content store: the posts found, newest first.
    pub open spec fn loads(&self, store: Seq<Post>, sources: Seq<SourceFile>, now: Timestamp) -> bool {
        is_loaded_store(self.plugin_manager.records(), store, sources, now)
    }

    /// Whether `out` is what the emit stages of this engine write at `now`:
    /// the output of a generator for the output directory, with a copy of the
    /// configuration and the plugins of the engine.
    pub open spec fn emits(&self, out: crate::generation::site::SiteOutput, now: Timestamp) -> bool {
        exists|generator: crate::generation::generator::HtmlGenerator<P>|
            generator.output_dir@ == self.public_dir@ && self.config.alike(generator.config)
                && generator.plugin_manager == Some(&self.plugin_manager)
                && #[trigger] generator.is_output_of(out, self.posts@, now)
    }

    /// Whether `warnings` is what the two checkpoints before the emit stages
    /// report of the plugins of the engine: the outcome of `BeforeGenerate`,
    /// then that of `BeforeRouteGenerate`.
    pub open spec fn is_warned(&self, warnings: Seq<PluginError>) -> bool {
        exists|first: Option<PluginError>, second: Option<PluginError>|
            {
                &&& crate::generation::site::is_checkpoint_of(
                    first,
                    PluginHook::BeforeGenerate,
                    self.plugin_manager.registry(),
                )
                &&& crate::generation::site::is_checkpoint_of(
                    second,
                    PluginHook::BeforeRouteGenerate,
                    self.plugin_manager.registry(),
                )
                &&& warnings == #[trigger] checkpoint_warnings(first, second)
            }
    }

    /// Runs the pipeline of one build, up to the writing, stage by stage as
    /// `stages` lists them: where a reload of the plugins is due, the outcome
    /// `attempts` of a round of loading is taken in; then the
    /// `BeforeGenerate` checkpoint, content loading from `sources`,
    /// classification, the `BeforeRouteGenerate` checkpoint and the emit
    /// stages. What the checkpoints report comes back as warnings and never
    /// ends the run. Once the outcome is written, the `AfterGenerate`
    /// checkpoint closes the run.
    pub fn run(
        &mut self,
        sources: &Vec<SourceFile>,
        attempts: Vec<LoadAttempt<P>>,
        now: &Timestamp,
    ) -> (r: Result<(crate::generation::site::SiteOutput, Vec<PluginError>), PluginError>)
        requires
            old(self).wf(),
        ensures
            final(self).wf(),
            final(self).config == old(self).config,
            final(self).output_unchanged(*old(self)),
            final(self).plugin_manager.registry() == old(self).registry_for(attempts@),
            final(self).plugin_manager.hot_reload() == old(self).plugin_manager.hot_reload(),
            final(self).plugin_manager.initialized(),
            final(self).theme_config == old(self).theme_config,
            final(self).pages == old(self).pages,
            final(self).is_store_after(
                final(self).plugin_manager.records(),
                old(self).content_reload(true),
                old(self).posts@,
                old(self).categories,
                old(self).tags,
                sources@,
                *now,
                r is Ok,
            ),
            r matches Ok(done) ==> {
                &&& final(self).is_snapshot(final(self).plugin_manager.context())
                &&& are_categories_of(final(self).categories@, final(self).posts@)
                &&& are_tags_of(final(self).tags@, final(self).posts@)
                &&& final(self).emits(done.0, *now)
                &&& done.0.warning is None
                &&& final(self).is_warned(done.1@)
                &&& (final(self).plugin_manager.names().len() == 0 ==> done.1@.len() == 0)
            },
    {
        self.take_in(attempts);
        let first = self.checkpoint(PluginHook::BeforeGenerate);
        self.build_store(true, sources, now)?;
        let second = self.checkpoint(PluginHook::BeforeRouteGenerate);
        let context = self.create_plugin_context();
        self.plugin_manager.set_context(context);
        let ghost one = first;
        let ghost two = second;
        let mut warnings: Vec<PluginError> = Vec::new();
        match first {
            Some(e) => warnings.push(e),
            None => {},
        }
        match second {
            Some(e) => warnings.push(e),
            None => {},
        }
        assert(warnings@ =~= checkpoint_warnings(one, two));
        let generator = crate::generation::generator::HtmlGenerator::new_with_plugin_manager(
            self.public_dir.clone(),
            self.config.duplicate(),
            &self.plugin_manager,
        );
        let out = generator.emit(&self.posts, now)?;
        Ok((out, warnings))
    }

    /// A server for the output directory.
    pub fn server(&self, port: u16) -> (r: Result<crate::generation::server::Server, PluginError>)
        ensures
            r matches Ok(server) && server.directory() == self.public_dir@ && server.on_port()
                == port,
    {
        Ok(crate::generation::server::Server::new(self.public_dir.clone(), port))
    }
}

} // verus!
