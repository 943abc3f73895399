//! The plugin host.
//!
//! A [`PluginManager`] keeps the registered plugins in registration order,
//! pipes content through them, notifies them at pipeline checkpoints and
//! gathers their failures without ever giving up on the remaining plugins.

pub mod comments;
pub mod dispatch;
pub mod error;
pub mod example;
pub mod loader;
pub mod manager;
pub mod math;
pub mod search;
pub mod syntax_highlight;
pub mod templates;
pub mod toc;
pub mod word_count;

use vstd::prelude::*;
use vstd::string::*;
use crate::models::config::Config;
use crate::models::types::{Category, Page, Post, Tag};
use crate::models::value::Value;
use crate::text::{replace_char, replace_char_in, texts};

pub use comments::CommentsPlugin;
pub use dispatch::{
    aggregate_cleanup_failures, aggregate_hook_failures, is_cleanup_outcome, is_hook_outcome, Call,
    PluginFailure,
};
pub use error::{PluginError, PluginHook};
pub use example::ExamplePlugin;
pub use loader::{
    FileCheck, LoadAttempt, LoadFailure, LoadFault, LoadOutcome, LoadSummary, Platform,
};
pub use manager::{ClonedPlugin, PluginManager};
pub use math::MathPlugin;
pub use search::SearchPlugin;
pub use syntax_highlight::SyntaxHighlightPlugin;
pub use toc::{TocConfig, TocPlugin};
pub use word_count::WordCountPlugin;

verus! {

/// The kind of payload handed to a transform call, so that a plugin can pass
/// over content it does not understand.
#[derive(Clone, Copy, Debug, PartialEq, Eq, Structural)]
pub enum ContentType {
    Markdown,
    HTML,
    JSON,
    YAML,
    CSS,
    JavaScript,
    Plain,
}

/// Where a plugin asset is injected into a page.
#[derive(Clone, Copy, Debug, PartialEq, Eq, Structural)]
pub enum ResourceLocation {
    Head,
    Footer,
}

/// A list of assets as plain values: the text of each asset with its place.
pub open spec fn resource_views(resources: Seq<(String, ResourceLocation)>) -> Seq<
    (Seq<char>, ResourceLocation),
> {
    resources.map_values(|r: (String, ResourceLocation)| (r.0@, r.1))
}

/// The snapshot of the site that every plugin call is given.
///
/// It is a copy taken at one pipeline stage; it does not follow later changes
/// of the content store.
#[derive(Clone, Debug)]
pub struct PluginContext {
    pub base_dir: String,
    pub plugins_dir: String,
    pub theme_dir: String,
    pub base_url: String,
    pub output_dir: String,
    pub config: Config,
    pub posts: Vec<Post>,
    pub pages: Vec<Page>,
    pub categories: Vec<Category>,
    pub tags: Vec<Tag>,
    pub current_post: Option<Post>,
    pub current_page: Option<Page>,
}

impl Default for PluginContext {
    fn default() -> (r: PluginContext)
        ensures
            r.base_dir@.len() == 0,
            r.plugins_dir@.len() == 0,
            r.theme_dir@.len() == 0,
            r.base_url@ == "/"@,
            r.output_dir@.len() == 0,
            r.config.is_default(),
            r.posts@.len() == 0,
            r.pages@.len() == 0,
            r.categories@.len() == 0,
            r.tags@.len() == 0,
            r.current_post.is_none(),
            r.current_page.is_none(),
    {
        PluginContext {
            base_dir: String::new(),
            plugins_dir: String::new(),
            theme_dir: String::new(),
            base_url: "/".to_string(),
            output_dir: String::new(),
            config: Config::default(),
            posts: Vec::new(),
            pages: Vec::new(),
            categories: Vec::new(),
            tags: Vec::new(),
            current_post: None,
            current_page: None,
        }
    }
}

/// The interface every plugin offers to the host.
///
/// What a plugin says of itself and what `process_content` makes of a content
/// are functions of the plugin's state and of the arguments: `reported_name`,
/// `reported_version`, `reported_description`, `offered_resources`,
/// `offered_functions` and `transformed` name what these calls yield, `None`
/// standing for a failure. `hook_answer` and `cleanup_answer` name what the
/// plugin answers at a checkpoint and at teardown: `None` for success, else
/// its account of the failure. Nothing is promised of `init` and
/// `call_template_function`; the host is proved for whatever they return.
pub trait Plugin: Send + Sync {
    /// What `process_content` makes of `content`, or `None` where it fails.
    spec fn transformed(&self, content: Seq<char>, content_type: ContentType) -> Option<
        Seq<char>,
    >;

    /// The name the plugin reports of itself.
    spec fn reported_name(&self) -> Seq<char>;

    /// The version the plugin reports of itself.
    spec fn reported_version(&self) -> Seq<char>;

    /// The description the plugin gives of itself.
    spec fn reported_description(&self) -> Seq<char>;

    /// The assets the plugin wants injected, each with its place, in the
    /// order in which it lists them.
    spec fn offered_resources(&self) -> Seq<(Seq<char>, ResourceLocation)>;

    /// The names of the functions the plugin offers to templates, in the
    /// order in which it lists them.
    spec fn offered_functions(&self) -> Seq<Seq<char>>;

    fn name(&self) -> (r: &str)
        ensures
            r@ == self.reported_name(),
    ;

    fn version(&self) -> (r: &str)
        ensures
            r@ == self.reported_version(),
    ;

    fn description(&self) -> (r: &str)
        ensures
            r@ == self.reported_description(),
    ;

    /// Prepares the plugin for work in the given site.
    fn init(&mut self, context: &PluginContext) -> Result<(), PluginError>;

    /// What the plugin answers at the checkpoint `hook`: `None` where it
    /// succeeds, else its account of the failure.
    spec fn hook_answer(&self, hook: PluginHook) -> Option<Seq<char>>;

    /// What the plugin answers at teardown: `None` where it succeeds, else
    /// its account of the failure.
    spec fn cleanup_answer(&self) -> Option<Seq<char>>;

    /// Notifies the plugin that the pipeline reached `hook`.
    fn execute_hook(&self, hook: &PluginHook) -> (r: Result<(), PluginError>)
        ensures
            match r {
                Ok(_) => self.hook_answer(*hook) is None,
                Err(e) => self.hook_answer(*hook) == Some(e.text()),
            },
    ;

    /// Rewrites `content`.
    fn process_content(&self, content: &str, content_type: ContentType) -> (r: Result<
        String,
        PluginError,
    >)
        ensures
            match r {
                Ok(next) => self.transformed(content@, content_type) == Some(next@),
                Err(_) => self.transformed(content@, content_type).is_none(),
            },
    ;

    /// The assets the plugin wants injected, each with its place.
    fn get_resources(&self) -> (r: Vec<(String, ResourceLocation)>)
        ensures
            resource_views(r@) == self.offered_resources(),
    ;

    /// The names of the functions the plugin offers to templates.
    fn get_template_functions(&self) -> (r: Vec<String>)
        ensures
            texts(r@) == self.offered_functions(),
    ;

    /// Calls the template function `name` with the given named arguments.
    fn call_template_function(&self, name: &str, args: &Vec<(String, Value)>) -> Result<
        Value,
        String,
    >;

    /// Releases what the plugin holds.
    fn cleanup(&self) -> (r: Result<(), PluginError>)
        ensures
            match r {
                Ok(_) => self.cleanup_answer() is None,
                Err(e) => self.cleanup_answer() == Some(e.text()),
            },
    ;
}

#[verifier::external_type_specification]
#[verifier::external_body]
pub struct ExLibrary(libloading::Library);

/// A live plugin together with the dynamic library that produced it.
///
/// The two are owned as one unit: the instance is dropped first, the library
/// after it, and neither can be taken out alone.
pub struct PluginRecord<P: Plugin + ?Sized> {
    instance: Box<P>,
    library: Option<libloading::Library>,
}

impl<P: Plugin + ?Sized> PluginRecord<P> {
    /// The plugin of the record.
    pub closed spec fn plugin(&self) -> &P {
        &*self.instance
    }

    /// Whether the record owns a library handle.
    pub closed spec fn owns_library(&self) -> bool {
        self.library.is_some()
    }

    /// A record for a plugin that lives in the host's own code.
    pub fn builtin(instance: Box<P>) -> (r: Self)
        ensures
            r.plugin() == &*instance,
            !r.owns_library(),
    {
        PluginRecord { instance, library: None }
    }

    /// A record for a plugin made by `library`.
    pub fn loaded(instance: Box<P>, library: libloading::Library) -> (r: Self)
        ensures
            r.plugin() == &*instance,
            r.owns_library(),
    {
        PluginRecord { instance, library: Some(library) }
    }

    /// The plugin, for a call.
    pub fn instance(&self) -> (p: &P)
        ensures
            p == self.plugin(),
    {
        &*self.instance
    }

    /// Initialises the plugin for work in the given site. The library handle
    /// stays with the record whatever the plugin answers.
    pub fn initialize(&mut self, context: &PluginContext) -> (r: Result<(), PluginError>)
        ensures
            final(self).owns_library() == old(self).owns_library(),
    {
        self.instance.init(context)
    }

    /// Tells whether the record owns a library handle.
    pub fn has_library(&self) -> (r: bool)
        ensures
            r == self.owns_library(),
    {
        self.library.is_some()
    }
}

/// The registry name of a plugin that calls itself `name`: underscores become
/// hyphens, so that self-reported names match configuration keys.
pub open spec fn normalized(name: Seq<char>) -> Seq<char> {
    replace_char(name, '_', '-')
}

/// Computes the registry name for `name`.
pub fn normalize_name(name: &str) -> (r: String)
    ensures
        r@ == normalized(name@),
{
    replace_char_in(name, '_', '-')
}

/// What one plugin makes of `content`: its output, or `content` itself where
/// the plugin fails.
pub open spec fn apply<P: Plugin + ?Sized>(
    plugin: &P,
    content: Seq<char>,
    content_type: ContentType,
) -> Seq<char> {
    match plugin.transformed(content, content_type) {
        Some(next) => next,
        None => content,
    }
}

/// The content after it went through `records` from first to last, each
/// plugin receiving what the one before it produced.
pub open spec fn transform<P: Plugin + ?Sized>(
    records: Seq<PluginRecord<P>>,
    content: Seq<char>,
    content_type: ContentType,
) -> Seq<char>
    decreases records.len(),
{
    if records.len() == 0 {
        content
    } else {
        apply(
            records.last().plugin(),
            transform(records.drop_last(), content, content_type),
            content_type,
        )
    }
}

/// The content that goes on after one plugin answered: its output on success,
/// the input unchanged on failure.
pub fn next_content(current: String, outcome: Result<String, PluginError>) -> (r: String)
    ensures
        r@ == (match outcome {
            Ok(next) => next@,
            Err(_) => current@,
        }),
{
    match outcome {
        Ok(next) => next,
        Err(_) => current,
    }
}

/// Registering one more plugin at the end composes it after the others.
pub proof fn lemma_transform_push<P: Plugin + ?Sized>(
    records: Seq<PluginRecord<P>>,
    last: PluginRecord<P>,
    content: Seq<char>,
    content_type: ContentType,
)
    ensures
        transform(records.push(last), content, content_type) == apply(
            last.plugin(),
            transform(records, content, content_type),
            content_type,
        ),
{
    assert(records.push(last).drop_last() == records);
}

/// The transform is a strict left fold: running the plugins of `front` and
/// then those of `back` on the result is running all of them in one go.
pub proof fn lemma_transform_concat<P: Plugin + ?Sized>(
    front: Seq<PluginRecord<P>>,
    back: Seq<PluginRecord<P>>,
    content: Seq<char>,
    content_type: ContentType,
)
    ensures
        transform(front + back, content, content_type) == transform(
            back,
            transform(front, content, content_type),
            content_type,
        ),
    decreases back.len(),
{
    if back.len() == 0 {
        assert(front + back == front);
    } else {
        lemma_transform_concat(front, back.drop_last(), content, content_type);
        assert((front + back).drop_last() == front + back.drop_last());
        assert((front + back).last() == back.last());
    }
}

/// With two plugins registered in the order `first`, `second`, the transform
/// of `content` is what `second` makes of what `first` made of `content`.
pub proof fn lemma_transform_pair<P: Plugin + ?Sized>(
    first: PluginRecord<P>,
    second: PluginRecord<P>,
    content: Seq<char>,
    content_type: ContentType,
)
    ensures
        transform(seq![first, second], content, content_type) == apply(
            second.plugin(),
            apply(first.plugin(), content, content_type),
            content_type,
        ),
        forall|middle: Seq<char>, out: Seq<char>|
            first.plugin().transformed(content, content_type) == Some(middle)
                && second.plugin().transformed(middle, content_type) == Some(out)
                ==> transform(seq![first, second], content, content_type) == out,
{
    let none = Seq::<PluginRecord<P>>::empty();
    lemma_transform_push(none, first, content, content_type);
    lemma_transform_push(none.push(first), second, content, content_type);
    assert(none.push(first).push(second) == seq![first, second]);
}

/// A plugin that fails leaves the content as it was before the plugin ran:
/// the next plugin receives exactly what the failing one was given.
pub proof fn lemma_failure_passes_content_on<P: Plugin + ?Sized>(
    records: Seq<PluginRecord<P>>,
    i: int,
    content: Seq<char>,
    content_type: ContentType,
)
    requires
        0 <= i < records.len(),
        records[i].plugin().transformed(
            transform(records.take(i), content, content_type),
            content_type,
        ).is_none(),
    ensures
        transform(records.take(i + 1), content, content_type) == transform(
            records.take(i),
            content,
            content_type,
        ),
{
    assert(records.take(i + 1).drop_last() == records.take(i));
    assert(records.take(i + 1).last() == records[i]);
}

} // verus!
