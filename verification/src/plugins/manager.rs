//! The registry of live plugins and the calls that reach all of them.

use vstd::prelude::*;
use vstd::string::*;
use crate::plugins::error::{PluginError, PluginHook};
use crate::plugins::{
    apply, normalize_name, normalized, resource_views, transform, ContentType, Plugin,
    PluginContext, PluginRecord, ResourceLocation,
};
use crate::models::value::Value;
use crate::text::{join_path, path_join, same_text, texts};

verus! {

/// The name, version and description of a registered plugin, detached from
/// the plugin itself. As a plugin it hands every content through unchanged.
#[derive(Clone, Debug)]
pub struct ClonedPlugin {
    name: String,
    version: String,
    description: String,
}

impl Plugin for ClonedPlugin {
    open spec fn transformed(&self, content: Seq<char>, content_type: ContentType) -> Option<
        Seq<char>,
    > {
        Some(content)
    }

    closed spec fn reported_name(&self) -> Seq<char> {
        self.name@
    }

    closed spec fn reported_version(&self) -> Seq<char> {
        self.version@
    }

    closed spec fn reported_description(&self) -> Seq<char> {
        self.description@
    }

    /// A detached copy has no assets.
    open spec fn offered_resources(&self) -> Seq<(Seq<char>, ResourceLocation)> {
        Seq::empty()
    }

    /// A detached copy offers no template function.
    open spec fn offered_functions(&self) -> Seq<Seq<char>> {
        Seq::empty()
    }

    /// A detached copy succeeds at every checkpoint.
    open spec fn hook_answer(&self, hook: PluginHook) -> Option<Seq<char>> {
        None
    }

    /// A detached copy holds nothing, so its teardown succeeds.
    open spec fn cleanup_answer(&self) -> Option<Seq<char>> {
        None
    }

    fn name(&self) -> (r: &str) {
        self.name.as_str()
    }

    fn version(&self) -> (r: &str) {
        self.version.as_str()
    }

    fn description(&self) -> (r: &str) {
        self.description.as_str()
    }

    /// There is nothing to prepare: the copy stays as it is.
    fn init(&mut self, context: &PluginContext) -> (r: Result<(), PluginError>)
        ensures
            r is Ok,
            *final(self) == *old(self),
    {
        Ok(())
    }

    /// A copy takes note of no checkpoint.
    fn execute_hook(&self, hook: &PluginHook) -> (r: Result<(), PluginError>)
        ensures
            r is Ok,
    {
        Ok(())
    }

    fn process_content(&self, content: &str, content_type: ContentType) -> (r: Result<
        String,
        PluginError,
    >) {
        Ok(content.to_string())
    }

    fn get_resources(&self) -> (r: Vec<(String, ResourceLocation)>)
        ensures
            r@.len() == 0,
    {
        let none: Vec<(String, ResourceLocation)> = Vec::new();
        assert(resource_views(none@) =~= Seq::empty());
        none
    }

    fn get_template_functions(&self) -> (r: Vec<String>)
        ensures
            r@.len() == 0,
    {
        let none: Vec<String> = Vec::new();
        assert(texts(none@) =~= Seq::<Seq<char>>::empty());
        none
    }

    /// A copy offers no function: every call fails, with the name of the
    /// function as the reason.
    fn call_template_function(&self, name: &str, args: &Vec<(String, Value)>) -> (r: Result<
        Value,
        String,
    >)
        ensures
            r matches Err(reason) && reason@ == name@,
    {
        Err(name.to_string())
    }

    /// A copy holds nothing that would have to be released.
    fn cleanup(&self) -> (r: Result<(), PluginError>)
        ensures
            r is Ok,
    {
        Ok(())
    }
}

/// A registry after `record` was registered under `name`: a name that is
/// already there keeps its place and gets the new record, a new name goes to
/// the end.
pub open spec fn upsert<P: Plugin + ?Sized>(
    registry: Seq<(Seq<char>, PluginRecord<P>)>,
    name: Seq<char>,
    record: PluginRecord<P>,
) -> Seq<(Seq<char>, PluginRecord<P>)>
    decreases registry.len(),
{
    if registry.len() == 0 {
        seq![(name, record)]
    } else if registry[0].0 == name {
        seq![(name, record)] + registry.skip(1)
    } else {
        seq![registry[0]] + upsert(registry.skip(1), name, record)
    }
}

/// Registering under a name that is not there appends.
pub proof fn lemma_upsert_new<P: Plugin + ?Sized>(
    registry: Seq<(Seq<char>, PluginRecord<P>)>,
    name: Seq<char>,
    record: PluginRecord<P>,
)
    requires
        forall|k: int| 0 <= k < registry.len() ==> (#[trigger] registry[k]).0 != name,
    ensures
        upsert(registry, name, record) == registry.push((name, record)),
    decreases registry.len(),
{
    if registry.len() > 0 {
        let rest = registry.skip(1);
        assert forall|k: int| 0 <= k < rest.len() implies (#[trigger] rest[k]).0 != name by {
            assert(rest[k] == registry[k + 1]);
        }
        lemma_upsert_new(rest, name, record);
        assert(seq![registry[0]] + rest.push((name, record)) =~= registry.push((name, record)));
    } else {
        assert(seq![(name, record)] =~= registry.push((name, record)));
    }
}

/// Registering under the name found first at position `i` replaces the record
/// there and touches nothing else.
pub proof fn lemma_upsert_at<P: Plugin + ?Sized>(
    registry: Seq<(Seq<char>, PluginRecord<P>)>,
    i: int,
    name: Seq<char>,
    record: PluginRecord<P>,
)
    requires
        0 <= i < registry.len(),
        registry[i].0 == name,
        forall|k: int| 0 <= k < i ==> (#[trigger] registry[k]).0 != name,
    ensures
        upsert(registry, name, record) == registry.update(i, (name, record)),
    decreases i,
{
    let rest = registry.skip(1);
    if i == 0 {
        assert(seq![(name, record)] + rest =~= registry.update(0, (name, record)));
    } else {
        assert(registry[0].0 != name);
        assert(rest[i - 1] == registry[i]);
        assert forall|k: int| 0 <= k < i - 1 implies (#[trigger] rest[k]).0 != name by {
            assert(rest[k] == registry[k + 1]);
        }
        lemma_upsert_at(rest, i - 1, name, record);
        assert(seq![registry[0]] + rest.update(i - 1, (name, record)) =~= registry.update(
            i,
            (name, record),
        ));
    }
}

/// The plugin host: the registry of live plugins, the snapshot they are
/// given, and the hot-reload flag.
///
/// Registry names are normalized and pairwise different; the plugins keep the
/// order in which their names were first registered.
pub struct PluginManager<P: Plugin + ?Sized> {
    base_dir: String,
    plugins_dir: String,
    context: PluginContext,
    names: Vec<String>,
    records: Vec<PluginRecord<P>>,
    is_watching: bool,
    initialized: bool,
}

impl<P: Plugin + ?Sized> PluginManager<P> {
    /// The invariant of the registry: one name for each record, and no name
    /// twice. `new` establishes it and every method keeps it.
    pub closed spec fn wf(&self) -> bool {
        &&& self.names@.len() == self.records@.len()
        &&& (forall|i: int, j: int|
            0 <= i < j < self.names@.len() ==> self.names@[i]@ != self.names@[j]@)
    }

    /// The registry names, in registration order.
    pub closed spec fn names(&self) -> Seq<Seq<char>> {
        texts(self.names@)
    }

    /// The registered records, in registration order.
    pub closed spec fn records(&self) -> Seq<PluginRecord<P>> {
        self.records@
    }

    /// The registry: each name with its record, in registration order.
    pub closed spec fn registry(&self) -> Seq<(Seq<char>, PluginRecord<P>)> {
        Seq::new(self.names@.len(), |i: int| (self.names@[i]@, self.records@[i]))
    }

    /// The names and the records are the two halves of the registry.
    pub proof fn lemma_registry_halves(&self)
        requires
            self.wf(),
        ensures
            self.names() == self.registry().map_values(
                |e: (Seq<char>, PluginRecord<P>)| e.0,
            ),
            self.records() == self.registry().map_values(
                |e: (Seq<char>, PluginRecord<P>)| e.1,
            ),
            self.names().no_duplicates(),
    {
        assert(self.names() =~= self.registry().map_values(
            |e: (Seq<char>, PluginRecord<P>)| e.0,
        ));
        assert(self.records() =~= self.registry().map_values(
            |e: (Seq<char>, PluginRecord<P>)| e.1,
        ));
    }

    /// The snapshot handed to plugins.
    pub closed spec fn context(&self) -> PluginContext {
        self.context
    }

    /// Whether hot reload is switched on.
    pub closed spec fn hot_reload(&self) -> bool {
        self.is_watching
    }

    /// The directory of the site.
    pub closed spec fn base_dir(&self) -> Seq<char> {
        self.base_dir@
    }

    /// The directory scanned for plugin libraries.
    pub closed spec fn plugins_dir(&self) -> Seq<char> {
        self.plugins_dir@
    }

    /// Whether `init` has run.
    pub closed spec fn initialized(&self) -> bool {
        self.initialized
    }

    /// An empty host for the site at `base_dir`; plugins are looked for in its
    /// `plugins` directory.
    pub fn new(base_dir: String, context: PluginContext) -> (r: Self)
        ensures
            r.wf(),
            r.names().len() == 0,
            r.records().len() == 0,
            r.base_dir() == base_dir@,
            r.plugins_dir() == path_join(base_dir@, "plugins"@),
            r.context() == context,
            !r.hot_reload(),
            !r.initialized(),
    {
        let plugins_dir = join_path(base_dir.as_str(), "plugins");
        PluginManager {
            base_dir,
            plugins_dir,
            context,
            names: Vec::new(),
            records: Vec::new(),
            is_watching: false,
            initialized: false,
        }
    }

    /// The directory scanned for plugin libraries.
    pub fn plugins_directory(&self) -> (r: &str)
        ensures
            r@ == self.plugins_dir(),
    {
        self.plugins_dir.as_str()
    }

    /// The snapshot handed to plugins.
    pub fn current_context(&self) -> (r: &PluginContext)
        ensures
            *r == self.context(),
    {
        &self.context
    }

    /// The number of registered plugins.
    pub fn len(&self) -> (n: usize)
        requires
            self.wf(),
        ensures
            n == self.records().len(),
            n == self.names().len(),
    {
        self.records.len()
    }

    /// The plugin at position `i` of the registry, for a call.
    pub fn plugin_at(&self, i: usize) -> (p: &P)
        requires
            i < self.records().len(),
        ensures
            p == self.records()[i as int].plugin(),
    {
        self.records[i].instance()
    }

    /// Offers the plugins to the renderer. The renderer asks the host for
    /// what it needs when it renders; there is nothing to hand over.
    pub fn register_to_theme_renderer(&self) -> (r: Result<(), PluginError>)
        ensures
            r is Ok,
    {
        Ok(())
    }

    /// The registry names, in registration order.
    pub fn plugin_names(&self) -> (r: Vec<String>)
        ensures
            texts(r@) == self.names(),
    {
        let mut out: Vec<String> = Vec::new();
        let mut i: usize = 0;
        while i < self.names.len()
            invariant
                i <= self.names.len(),
                texts(out@) == texts(self.names@).take(i as int),
            decreases self.names.len() - i,
        {
            let name = self.names[i].clone();
            assert(name@ == self.names@[i as int]@);
            out.push(name);
            assert(texts(out@).drop_last() == texts(self.names@).take(i as int));
            assert(texts(out@).last() == texts(self.names@)[i as int]);
            assert(texts(out@) =~= texts(self.names@).take(i + 1));
            i = i + 1;
        }
        assert(texts(self.names@).take(i as int) == texts(self.names@));
        out
    }

    /// The position of the registry name `name`, if it is registered.
    pub fn position(&self, name: &str) -> (r: Option<usize>)
        ensures
            match r {
                Some(i) => i < self.names().len() && self.names()[i as int] == name@,
                None => !self.names().contains(name@),
            },
    {
        let mut i: usize = 0;
        while i < self.names.len()
            invariant
                i <= self.names.len(),
                forall|k: int| 0 <= k < i ==> self.names@[k]@ != name@,
            decreases self.names.len() - i,
        {
            if same_text(self.names[i].as_str(), name) {
                return Some(i);
            }
            i = i + 1;
        }
        None
    }

    /// Registers `record` under the normalized form of `name`.
    ///
    /// A name that is already registered keeps its place and gets the new
    /// record; the record it had is handed back. A new name goes to the end.
    pub fn register(&mut self, name: &str, record: PluginRecord<P>) -> (displaced: Option<
        PluginRecord<P>,
    >)
        requires
            old(self).wf(),
        ensures
            final(self).wf(),
            final(self).registry() == upsert(old(self).registry(), normalized(name@), record),
            final(self).names().no_duplicates(),
            final(self).names().len() == final(self).records().len(),
            match displaced {
                Some(previous) => {
                    &&& old(self).names().contains(normalized(name@))
                    &&& final(self).names() == old(self).names()
                    &&& exists|i: int|
                        {
                            &&& 0 <= i < old(self).names().len()
                            &&& old(self).names()[i] == normalized(name@)
                            &&& previous == old(self).records()[i]
                            &&& final(self).records() == old(self).records().update(i, record)
                        }
                },
                None => {
                    &&& !old(self).names().contains(normalized(name@))
                    &&& final(self).names() == old(self).names().push(normalized(name@))
                    &&& final(self).records() == old(self).records().push(record)
                },
            },
            final(self).context() == old(self).context(),
            final(self).hot_reload() == old(self).hot_reload(),
            final(self).initialized() == old(self).initialized(),
            final(self).base_dir() == old(self).base_dir(),
            final(self).plugins_dir() == old(self).plugins_dir(),
    {
        let key = normalize_name(name);
        match self.position(key.as_str()) {
            Some(i) => {
                self.records.push(record);
                let previous = self.records.swap_remove(i);
                assert(self.records@ == old(self).records@.update(i as int, record));
                assert(texts(self.names@).no_duplicates());
                proof {
                    lemma_upsert_at(old(self).registry(), i as int, normalized(name@), record);
                    assert(self.registry() =~= old(self).registry().update(
                        i as int,
                        (normalized(name@), record),
                    ));
                }
                Some(previous)
            },
            None => {
                self.names.push(key);
                self.records.push(record);
                assert(texts(self.names@) == texts(old(self).names@).push(normalized(name@)));
                assert forall|i: int, j: int| 0 <= i < j < self.names@.len() implies self.names@[i]@
                    != self.names@[j]@ by {
                    if j == old(self).names@.len() {
                        assert(texts(old(self).names@)[i] == old(self).names@[i]@);
                        assert(old(self).names().contains(old(self).names@[i]@));
                    }
                }
                assert(texts(self.names@).no_duplicates());
                proof {
                    assert forall|k: int| 0 <= k < old(self).registry().len() implies (
                    #[trigger] old(self).registry()[k]).0 != normalized(name@) by {
                        assert(texts(old(self).names@)[k] == old(self).names@[k]@);
                        assert(old(self).names().contains(old(self).names@[k]@));
                    }
                    lemma_upsert_new(old(self).registry(), normalized(name@), record);
                    assert(self.registry() =~= old(self).registry().push(
                        (normalized(name@), record),
                    ));
                }
                None
            },
        }
    }

    /// Replaces the snapshot handed to plugins.
    pub fn set_context(&mut self, context: PluginContext)
        ensures
            final(self).wf() == old(self).wf(),
            final(self).context() == context,
            final(self).names() == old(self).names(),
            final(self).records() == old(self).records(),
            final(self).registry() == old(self).registry(),
            final(self).hot_reload() == old(self).hot_reload(),
            final(self).initialized() == old(self).initialized(),
            final(self).base_dir() == old(self).base_dir(),
            final(self).plugins_dir() == old(self).plugins_dir(),
    {
        self.context = context;
    }

    /// Notes that the plugins have been loaded.
    pub fn mark_initialized(&mut self)
        ensures
            final(self).wf() == old(self).wf(),
            final(self).initialized(),
            final(self).names() == old(self).names(),
            final(self).records() == old(self).records(),
            final(self).registry() == old(self).registry(),
            final(self).context() == old(self).context(),
            final(self).hot_reload() == old(self).hot_reload(),
            final(self).base_dir() == old(self).base_dir(),
            final(self).plugins_dir() == old(self).plugins_dir(),
    {
        self.initialized = true;
    }

    /// Reports whether the host was initialised with a round of loading.
    pub fn is_initialized(&self) -> (r: bool)
        ensures
            r == self.initialized(),
    {
        self.initialized
    }

    /// Switches hot reload on: the next generation run loads the plugins anew.
    pub fn start_hot_reload(&mut self) -> (r: Result<(), PluginError>)
        ensures
            r is Ok,
            final(self).wf() == old(self).wf(),
            final(self).hot_reload(),
            final(self).names() == old(self).names(),
            final(self).records() == old(self).records(),
            final(self).registry() == old(self).registry(),
            final(self).context() == old(self).context(),
            final(self).initialized() == old(self).initialized(),
    {
        self.is_watching = true;
        Ok(())
    }

    /// Switches hot reload off.
    pub fn stop_hot_reload(&mut self)
        ensures
            final(self).wf() == old(self).wf(),
            !final(self).hot_reload(),
            final(self).names() == old(self).names(),
            final(self).records() == old(self).records(),
            final(self).registry() == old(self).registry(),
            final(self).context() == old(self).context(),
            final(self).initialized() == old(self).initialized(),
    {
        self.is_watching = false;
    }

    /// Tells whether hot reload is switched on.
    pub fn is_hot_reload_enabled(&self) -> (r: bool)
        ensures
            r == self.hot_reload(),
    {
        self.is_watching
    }

    /// The name, version and description of every registered plugin, in
    /// registration order.
    pub fn get_all_plugins(&self) -> (r: Result<Vec<ClonedPlugin>, PluginError>)
        ensures
            r matches Ok(infos) && infos@.len() == self.records().len() && (forall|k: int|
                0 <= k < infos@.len() ==> {
                    &&& (#[trigger] infos@[k]).reported_name()
                        == self.records()[k].plugin().reported_name()
                    &&& infos@[k].reported_version()
                        == self.records()[k].plugin().reported_version()
                    &&& infos@[k].reported_description()
                        == self.records()[k].plugin().reported_description()
                }),
    {
        let mut out: Vec<ClonedPlugin> = Vec::new();
        let mut i: usize = 0;
        while i < self.records.len()
            invariant
                i <= self.records.len(),
                out@.len() == i,
                forall|k: int|
                    0 <= k < i ==> {
                        &&& (#[trigger] out@[k]).reported_name()
                            == self.records@[k].plugin().reported_name()
                        &&& out@[k].reported_version()
                            == self.records@[k].plugin().reported_version()
                        &&& out@[k].reported_description()
                            == self.records@[k].plugin().reported_description()
                    },
            decreases self.records.len() - i,
        {
            let plugin = self.records[i].instance();
            out.push(
                ClonedPlugin {
                    name: plugin.name().to_string(),
                    version: plugin.version().to_string(),
                    description: plugin.description().to_string(),
                },
            );
            i = i + 1;
        }
        Ok(out)
    }

    /// Pipes `content` through every registered plugin in registration order.
    ///
    /// Each plugin receives what the one before it produced; a plugin that
    /// fails is passed over and its input goes on unchanged.
    pub fn process_content(&self, content: &str, content_type: ContentType) -> (r: Result<
        String,
        PluginError,
    >)
        ensures
            r matches Ok(out) && out@ == transform(self.records(), content@, content_type),
    {
        let mut current: String = content.to_string();
        let mut i: usize = 0;
        while i < self.records.len()
            invariant
                i <= self.records.len(),
                current@ == transform(self.records@.take(i as int), content@, content_type),
            decreases self.records.len() - i,
        {
            let outcome = self.records[i].instance().process_content(
                current.as_str(),
                content_type,
            );
            proof {
                assert(self.records@.take(i + 1).drop_last() == self.records@.take(i as int));
                assert(self.records@.take(i + 1).last() == self.records@[i as int]);
            }
            current = crate::plugins::next_content(current, outcome);
            i = i + 1;
        }
        proof {
            assert(self.records@.take(i as int) == self.records@);
        }
        Ok(current)
    }
}

} // verus!
