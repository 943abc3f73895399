//! One build, put together: everything the emit stages produce.

use vstd::prelude::*;
use vstd::string::*;
use crate::generation::engine::{page_size, page_size_of, text_or};
use crate::generation::feeds::{are_entries_of, atom_of, rss_of, FeedEntry, ATOM_LIMIT, RSS_LIMIT};
use crate::generation::generator::{is_listing_of, listing_groups, HtmlGenerator, OutputFile};
use crate::generation::html::ListingKind;
use crate::generation::indexes::{archives_index, categories_index, tags_index};
use crate::generation::pages::{is_index_page, is_post_page, IndexPage, PostPage};
use crate::generation::pagination::page_count;
use crate::generation::search::{
    is_item_of, search_enabled, search_full_content, search_index_path, SearchIndexFile,
};
use crate::models::config::Config;
use crate::models::types::{Post, Timestamp};
use crate::plugins::error::{PluginError, PluginHook};
use crate::plugins::dispatch::failures_at;
use crate::plugins::manager::PluginManager;
use crate::plugins::{is_cleanup_outcome, is_hook_outcome, Call, Plugin, PluginRecord};
use crate::text::{join_path, path_join};

verus! {

/// A directory whose files are to be copied, keeping their relative paths.
#[derive(Clone, Debug)]
pub struct AssetCopy {
    pub from: String,
    pub to: String,
}

/// Everything one build writes.
#[derive(Clone, Debug)]
pub struct SiteOutput {
    /// The static files of the theme.
    pub theme_assets: AssetCopy,
    /// The post pages, to be rendered with `post.html`.
    pub post_pages: Vec<PostPage>,
    /// The index pages, to be rendered with `index.html`.
    pub index_pages: Vec<IndexPage>,
    /// The overview of all categories.
    pub categories_index: OutputFile,
    /// One page for each category.
    pub categories: Vec<OutputFile>,
    /// The overview of all tags.
    pub tags_index: OutputFile,
    /// One page for each tag.
    pub tags: Vec<OutputFile>,
    /// The overview of the archive.
    pub archives_index: OutputFile,
    /// One page for each month.
    pub archives: Vec<OutputFile>,
    pub rss: OutputFile,
    pub atom: OutputFile,
    /// The search index, where search is switched on.
    pub search: Option<SearchIndexFile>,
    /// What plugins reported at the `BeforeGenerate` checkpoint.
    pub warning: Option<PluginError>,
}

/// Where the static files of the theme lie: `themes/<theme>/source`.
pub open spec fn theme_source_of(config: Config) -> Seq<char> {
    path_join(path_join("themes"@, text_or(config.theme, Seq::empty())), "source"@)
}

/// Whether `files` are the listings of one kind for `posts`.
pub open spec fn are_listings_of(
    files: Seq<OutputFile>,
    output_dir: Seq<char>,
    config: Config,
    kind: ListingKind,
    posts: Seq<Post>,
    year: int,
) -> bool {
    &&& files.len() == listing_groups(posts, kind).len()
    &&& (forall|k: int|
        0 <= k < files.len() ==> is_listing_of(
            #[trigger] files[k],
            output_dir,
            config,
            kind,
            listing_groups(posts, kind)[k],
            posts,
            year,
        ))
}

/// Whether `file` holds `content` at `name` below the directory `dir` of the
/// output directory.
pub open spec fn is_file_at(
    file: OutputFile,
    output_dir: Seq<char>,
    dir: Seq<char>,
    name: Seq<char>,
    content: Seq<char>,
) -> bool {
    file.path@ == path_join(path_join(output_dir, dir), name) && file.content@ == content
}

/// What a teardown hands back for the record: what the `Clean` checkpoint
/// reported, then what the plugins' own teardown reported.
pub open spec fn teardown_warnings(
    hooked: Result<(), PluginError>,
    cleaned: Result<(), PluginError>,
) -> Seq<PluginError> {
    let first = match hooked {
        Err(e) => seq![e],
        Ok(_) => Seq::empty(),
    };
    let second = match cleaned {
        Err(e) => seq![e],
        Ok(_) => Seq::empty(),
    };
    first + second
}

/// Whether `warnings` is the record of a teardown of the plugins of a
/// registry: the outcome of the `Clean` checkpoint, then the outcome of the
/// plugins' own teardown, each an error exactly where a plugin fails.
pub open spec fn is_teardown_of<P: Plugin + ?Sized>(
    warnings: Seq<PluginError>,
    registry: Seq<(Seq<char>, PluginRecord<P>)>,
) -> bool {
    exists|hooked: Result<(), PluginError>, cleaned: Result<(), PluginError>|
        {
            &&& is_hook_outcome(
                hooked,
                PluginHook::Clean,
                failures_at(registry, Call::Checkpoint(PluginHook::Clean)),
            )
            &&& is_cleanup_outcome(cleaned, failures_at(registry, Call::Release))
            &&& warnings == #[trigger] teardown_warnings(hooked, cleaned)
        }
}

/// Whether `warning` is what a checkpoint at `hook` reports of the plugins
/// of a registry: nothing where every plugin succeeds, else the error that
/// names the failing plugins.
pub open spec fn is_checkpoint_of<P: Plugin + ?Sized>(
    warning: Option<PluginError>,
    hook: PluginHook,
    registry: Seq<(Seq<char>, PluginRecord<P>)>,
) -> bool {
    is_hook_outcome(
        match warning {
            Some(e) => Err(e),
            None => Ok(()),
        },
        hook,
        failures_at(registry, Call::Checkpoint(hook)),
    )
}

/// Tears the plugins of `host` down: the `Clean` checkpoint first, then
/// every plugin's own teardown. What they report is handed back for the
/// record.
pub fn teardown<P: Plugin + ?Sized>(host: &PluginManager<P>) -> (warnings: Vec<PluginError>)
    requires
        host.wf(),
    ensures
        is_teardown_of(warnings@, host.registry()),
        host.names().len() == 0 ==> warnings@.len() == 0,
{
    let mut warnings: Vec<PluginError> = Vec::new();
    let hooked = host.execute_hook(&PluginHook::Clean);
    let cleaned = host.cleanup();
    let ghost first = hooked;
    let ghost second = cleaned;
    match hooked {
        Ok(()) => {},
        Err(e) => warnings.push(e),
    }
    match cleaned {
        Ok(()) => {},
        Err(e) => warnings.push(e),
    }
    assert(warnings@ =~= teardown_warnings(first, second));
    warnings
}

impl<'a, P: Plugin + ?Sized> HtmlGenerator<'a, P> {
    /// Whether `out` is what a build of `posts` at `now` writes.
    pub open spec fn is_output_of(&self, out: SiteOutput, posts: Seq<Post>, now: Timestamp) -> bool {
        let year = now.year as int;
        let size = page_size_of(self.config);
        &&& out.theme_assets.from@ == theme_source_of(self.config)
        &&& out.theme_assets.to@ == self.output_dir@
        &&& out.post_pages@.len() == posts.len()
        &&& (forall|i: int|
            0 <= i < out.post_pages@.len() ==> is_post_page(
                #[trigger] out.post_pages@[i],
                self.output_dir@,
                self.config,
                self.plugin_names(),
                posts,
                i,
                now,
            ))
        &&& out.index_pages@.len() == page_count(posts.len(), size)
        &&& (forall|k: int|
            0 <= k < out.index_pages@.len() ==> is_index_page(
                #[trigger] out.index_pages@[k],
                self.output_dir@,
                self.config,
                self.plugin_names(),
                posts,
                size,
                k as nat,
            ))
        &&& is_file_at(
            out.categories_index,
            self.output_dir@,
            "categories"@,
            "index.html"@,
            categories_index(self.config, posts, year),
        )
        &&& are_listings_of(
            out.categories@,
            self.output_dir@,
            self.config,
            ListingKind::Category,
            posts,
            year,
        )
        &&& is_file_at(
            out.tags_index,
            self.output_dir@,
            "tags"@,
            "index.html"@,
            tags_index(self.config, posts, year),
        )
        &&& are_listings_of(out.tags@, self.output_dir@, self.config, ListingKind::Tag, posts, year)
        &&& is_file_at(
            out.archives_index,
            self.output_dir@,
            "archives"@,
            "index.html"@,
            archives_index(self.config, posts, year),
        )
        &&& are_listings_of(
            out.archives@,
            self.output_dir@,
            self.config,
            ListingKind::Archive,
            posts,
            year,
        )
        &&& out.rss.path@ == path_join(self.output_dir@, "rss.xml"@)
        &&& (exists|entries: Seq<FeedEntry>|
            #[trigger] are_entries_of(entries, self.config, posts, RSS_LIMIT as nat)
                && out.rss.content@ == rss_of(self.config, entries))
        &&& out.atom.path@ == path_join(self.output_dir@, "atom.xml"@)
        &&& (exists|entries: Seq<FeedEntry>|
            #[trigger] are_entries_of(entries, self.config, posts, ATOM_LIMIT as nat)
                && out.atom.content@ == atom_of(self.config, entries, now))
        &&& match out.search {
            Some(file) => {
                &&& search_enabled(self.config)
                &&& file.path@ == search_index_path(self.output_dir@)
                &&& file.items@.len() == posts.len()
                &&& (forall|i: int|
                    0 <= i < file.items@.len() ==> is_item_of(
                        #[trigger] file.items@[i],
                        posts[i],
                        search_full_content(self.config),
                    ))
            },
            None => !search_enabled(self.config),
        }
    }

    /// Whether the host the generator consults, if any, keeps its invariant.
    pub open spec fn host_wf(&self) -> bool {
        match self.plugin_manager {
            Some(host) => host.wf(),
            None => true,
        }
    }

    /// Where the static files of the theme lie, and where they go.
    pub fn copy_theme_assets(&self) -> (r: Result<AssetCopy, PluginError>)
        ensures
            r matches Ok(copy) && copy.from@ == theme_source_of(self.config) && copy.to@
                == self.output_dir@,
    {
        let theme = match &self.config.theme {
            Some(theme) => theme.clone(),
            None => String::new(),
        };
        let dir = join_path("themes", theme.as_str());
        Ok(AssetCopy { from: join_path(dir.as_str(), "source"), to: self.output_dir.clone() })
    }

    /// Notifies the plugins of a checkpoint. A failure is handed back for the
    /// record and never ends the build.
    pub fn checkpoint(&self, hook: PluginHook) -> (warning: Option<PluginError>)
        requires
            self.host_wf(),
        ensures
            is_checkpoint_of(warning, hook, self.plugin_registry()),
            self.plugin_names().len() == 0 ==> warning is None,
    {
        match self.plugin_manager {
            Some(host) => match host.execute_hook(&hook) {
                Ok(()) => None,
                Err(e) => Some(e),
            },
            None => None,
        }
    }

    /// Runs the emit stages of a build at `now`, one after the other.
    /// Nothing is written here: the outcome says what is to be written.
    pub fn emit(&self, posts: &Vec<Post>, now: &Timestamp) -> (r: Result<SiteOutput, PluginError>)
        ensures
            r matches Ok(out) && self.is_output_of(out, posts@, *now) && out.warning is None,
    {
        let year = now.year;
        let theme_assets = self.copy_theme_assets()?;
        let post_pages = self.generate_posts(posts, now)?;
        let index_pages = self.generate_paginated_index(posts, page_size(&self.config))?;
        let categories_index = self.generate_categories_index(posts, year)?;
        let categories = self.generate_categories(posts, year)?;
        let tags_index = self.generate_tags_index(posts, year)?;
        let tags = self.generate_tags(posts, year)?;
        let archives_index = self.generate_archives_index(posts, year)?;
        let archives = self.generate_archives(posts, year)?;
        let rss = self.generate_rss_feed(posts)?;
        let atom = self.generate_atom_feed(posts, now)?;
        let search = self.generate_search_index(posts)?;
        Ok(
            SiteOutput {
                theme_assets,
                post_pages,
                index_pages,
                categories_index,
                categories,
                tags_index,
                tags,
                archives_index,
                archives,
                rss,
                atom,
                search,
                warning: None,
            },
        )
    }

    /// Builds the site at `now`, up to the writing.
    ///
    /// The plugins are notified of `BeforeGenerate` first; what they report
    /// is kept as a warning and the build goes on with the emit stages. Once
    /// their outcome is written, `finish` closes the build.
    pub fn generate(&self, posts: &Vec<Post>, now: &Timestamp) -> (r: Result<
        SiteOutput,
        PluginError,
    >)
        requires
            self.host_wf(),
        ensures
            r matches Ok(out) && self.is_output_of(out, posts@, *now) && is_checkpoint_of(
                out.warning,
                PluginHook::BeforeGenerate,
                self.plugin_registry(),
            ),
            self.plugin_names().len() == 0 ==> (r matches Ok(out) && out.warning is None),
    {
        let warning = self.checkpoint(PluginHook::BeforeGenerate);
        let mut out = self.emit(posts, now)?;
        out.warning = warning;
        Ok(out)
    }

    /// Closes a build: notifies the plugins of `AfterGenerate`.
    pub fn finish(&self) -> (warning: Option<PluginError>)
        requires
            self.host_wf(),
        ensures
            is_checkpoint_of(warning, PluginHook::AfterGenerate, self.plugin_registry()),
            self.plugin_names().len() == 0 ==> warning is None,
    {
        self.checkpoint(PluginHook::AfterGenerate)
    }

    /// Tears the plugins down: the `Clean` checkpoint first, then every
    /// plugin's own teardown. Failures are handed back for the record.
    pub fn cleanup(&self) -> (r: Result<Vec<PluginError>, PluginError>)
        requires
            self.host_wf(),
        ensures
            r matches Ok(warnings) && is_teardown_of(warnings@, self.plugin_registry()),
            self.plugin_names().len() == 0 ==> (r matches Ok(warnings) && warnings@.len() == 0),
    {
        match self.plugin_manager {
            Some(host) => Ok(teardown(host)),
            None => {
                let warnings: Vec<PluginError> = Vec::new();
                assert(warnings@ =~= teardown_warnings(Ok(()), Ok(())));
                Ok(warnings)
            },
        }
    }
}

} // verus!
