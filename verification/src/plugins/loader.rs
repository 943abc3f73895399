//! Discovering and loading plugin libraries.
//!
//! Opening a library and calling into it happens outside this crate. What is
//! decided here: which files are plugin libraries, which files are not worth
//! opening, how each fault is reported, and what a round of loading does to
//! the registry.

use vstd::prelude::*;
use vstd::string::*;
use crate::plugins::error::PluginError;
use crate::plugins::manager::{upsert, PluginManager};
use crate::plugins::{normalized, Plugin, PluginContext, PluginRecord};
use crate::text::{lowercase_text, same_text, to_lowercase};
use crate::utils::{extension_of, path_extension, reversed};

use crate::generation::order::{
    all_positions, arrange, arranged, codes, lemma_arranged, lemma_arranged_alike,
    lemma_arranged_sorted, lemma_lex_irreflexive, lemma_lex_total, lemma_lex_transitive, lex_lt,
    positions, slot, text_before, SortKey,
};
use crate::text::{chars_of, texts};

verus! {

/// The operating system the host runs on.
#[derive(Clone, Copy, Debug, PartialEq, Eq, Structural)]
pub enum Platform {
    Windows,
    MacOs,
    Linux,
    Other,
}

/// The file extension of native libraries on a platform.
pub open spec fn library_extension(platform: Platform) -> Option<Seq<char>> {
    match platform {
        Platform::Windows => Some("dll"@),
        Platform::MacOs => Some("dylib"@),
        Platform::Linux => Some("so"@),
        Platform::Other => None,
    }
}

/// Tells whether a file whose extension, in lower case, is `extension` is a
/// native library on `platform`.
pub fn is_library_extension(extension: &str, platform: Platform) -> (r: bool)
    ensures
        r == (library_extension(platform) == Some(extension@)),
{
    proof {
        reveal_strlit("dll");
        reveal_strlit("dylib");
        reveal_strlit("so");
    }
    match platform {
        Platform::Windows => same_text(extension, "dll"),
        Platform::MacOs => same_text(extension, "dylib"),
        Platform::Linux => same_text(extension, "so"),
        Platform::Other => false,
    }
}

/// Whether the directory entry `file_name` is a candidate plugin: a regular
/// file whose extension, whatever its case, is the platform's library
/// extension.
pub open spec fn plugin_candidate(file_name: Seq<char>, is_file: bool, platform: Platform) -> bool {
    is_file && match path_extension(file_name) {
        Some(extension) => library_extension(platform) == Some(lowercase_text(extension)),
        None => false,
    }
}

/// Tells whether a directory entry is a candidate plugin.
pub fn is_plugin_candidate(file_name: &str, is_file: bool, platform: Platform) -> (r: bool)
    ensures
        r == plugin_candidate(file_name@, is_file, platform),
{
    if !is_file {
        return false;
    }
    match extension_of(file_name) {
        Some(extension) => {
            let lowered = to_lowercase(extension.as_str());
            is_library_extension(lowered.as_str(), platform)
        },
        None => false,
    }
}

/// The order of directory entries by their file names: code point by code
/// point, a name before every longer name that begins with it.
pub open spec fn file_name_order(file_names: Seq<Seq<char>>) -> spec_fn(int, int) -> bool {
    |i: int, j: int| lex_lt(codes(file_names[i]), codes(file_names[j]))
}

/// The positions of the directory entries in the order in which they are
/// tried: by file name, whatever order the directory listing had. Entries of
/// the same name keep the order of the listing.
pub open spec fn load_order(file_names: Seq<Seq<char>>) -> Seq<usize> {
    arranged(file_name_order(file_names), all_positions(file_names.len()))
}

/// Puts the entries of a plugin directory in the order in which they are
/// tried, so that two runs over the same directory register the plugins in
/// the same order.
pub fn order_candidates(file_names: &Vec<String>) -> (order: Vec<usize>)
    ensures
        order@ == load_order(texts(file_names@)),
        order@.len() == file_names@.len(),
        order@.to_multiset() == all_positions(file_names@.len() as nat).to_multiset(),
        forall|k: int| 0 <= k < order@.len() ==> (#[trigger] order@[k]) < file_names@.len(),
{
    let mut names: Vec<Vec<char>> = Vec::new();
    let mut i: usize = 0;
    while i < file_names.len()
        invariant
            i <= file_names.len(),
            names@.len() == i,
            forall|k: int| 0 <= k < i ==> (#[trigger] names@[k])@ == file_names@[k]@,
        decreases file_names.len() - i,
    {
        names.push(chars_of(file_names[i].as_str()));
        i = i + 1;
    }
    let all = positions(file_names.len());
    let key = SortKey::Texts(&names);
    let order = arrange(&key, &all);
    proof {
        let model = texts(file_names@);
        assert forall|a: int, b: int|
            0 <= a < all@.len() && 0 <= b < all@.len() implies key.relation()(
            all@[a] as int,
            all@[b] as int,
        ) == file_name_order(model)(all@[a] as int, all@[b] as int) by {
            assert(names@[a]@ == file_names@[a]@);
            assert(names@[b]@ == file_names@[b]@);
            assert(model[a] == file_names@[a]@);
            assert(model[b] == file_names@[b]@);
        }
        lemma_arranged_alike(key.relation(), file_name_order(model), all@);
        lemma_arranged(file_name_order(model), all@);
    }
    order
}

/// The order in which candidates are tried holds every entry once and is
/// sorted by file name: no entry is tried before one whose name comes before
/// its own.
pub proof fn lemma_load_order_sorted(file_names: Seq<Seq<char>>)
    ensures
        load_order(file_names).len() == file_names.len(),
        load_order(file_names).to_multiset() == all_positions(file_names.len()).to_multiset(),
        forall|k: int, l: int|
            0 <= k < l < load_order(file_names).len() ==> !lex_lt(
                codes(file_names[load_order(file_names)[l] as int]),
                codes(file_names[load_order(file_names)[k] as int]),
            ),
{
    let precedes = file_name_order(file_names);
    assert forall|a: int| !#[trigger] precedes(a, a) by {
        lemma_lex_irreflexive(codes(file_names[a]));
    }
    assert forall|a: int, b: int, c: int| #[trigger] precedes(a, b) && #[trigger] precedes(
        b,
        c,
    ) implies precedes(a, c) by {
        lemma_lex_transitive(codes(file_names[a]), codes(file_names[b]), codes(file_names[c]));
    }
    assert forall|a: int, b: int, c: int| !#[trigger] precedes(a, b) && !#[trigger] precedes(
        b,
        c,
    ) implies !precedes(a, c) by {
        let x = codes(file_names[a]);
        let y = codes(file_names[b]);
        let z = codes(file_names[c]);
        lemma_lex_total(x, y);
        lemma_lex_total(y, z);
        if lex_lt(x, z) {
            if lex_lt(y, x) {
                if lex_lt(z, y) {
                    lemma_lex_transitive(z, y, x);
                    lemma_lex_transitive(x, z, x);
                    lemma_lex_irreflexive(x);
                }
            }
        }
    }
    lemma_arranged(precedes, all_positions(file_names.len()));
    lemma_arranged_sorted(precedes, all_positions(file_names.len()));
}

/// What the file system says of a candidate before it is opened.
#[derive(Clone, Debug)]
pub enum FileCheck {
    /// No such file.
    Missing,
    /// The file is there, but its size cannot be read; the reason is given.
    Unreadable(String),
    /// The file is there and has this many bytes.
    Size(u64),
}

/// The message with which a candidate at `path` is turned down before it is
/// opened, or `None` where it is worth opening.
pub open spec fn rejection(path: Seq<char>, check: FileCheck) -> Option<Seq<char>> {
    match check {
        FileCheck::Missing => Some("插件文件不存在: "@ + path),
        FileCheck::Unreadable(reason) => Some("无法读取插件文件元数据: "@ + path + " - "@ + reason@),
        FileCheck::Size(n) => if n == 0 {
            Some("插件文件为空: "@ + path)
        } else {
            None
        },
    }
}

/// Turns down candidates that are missing, unreadable or empty, so that a
/// broken or half-written file is never opened.
pub fn validate_candidate(path: &str, check: &FileCheck) -> (r: Result<(), PluginError>)
    ensures
        match r {
            Ok(()) => rejection(path@, *check).is_none(),
            Err(e) => e matches PluginError::LoadError { message } && rejection(path@, *check)
                == Some(message@),
        },
{
    match check {
        FileCheck::Missing => {
            let mut message = "插件文件不存在: ".to_string();
            message.append(path);
            Err(PluginError::LoadError { message })
        },
        FileCheck::Unreadable(reason) => {
            let mut message = "无法读取插件文件元数据: ".to_string();
            message.append(path);
            message.append(" - ");
            message.append(reason.as_str());
            Err(PluginError::LoadError { message })
        },
        FileCheck::Size(n) => {
            if *n == 0 {
                let mut message = "插件文件为空: ".to_string();
                message.append(path);
                Err(PluginError::LoadError { message })
            } else {
                Ok(())
            }
        },
    }
}

/// A fault met while a library was opened and its plugin constructed. Every
/// abnormal termination on the far side of the boundary is caught there and
/// arrives here as one of these.
#[derive(Clone, Debug)]
pub enum LoadFault {
    /// The library could not be opened; the loader's reason is given.
    OpenFailed(String),
    /// Opening the library ended abnormally.
    OpenPanicked,
    /// The library has no factory entry point; the loader's reason is given.
    SymbolMissing(String),
    /// Looking the entry point up ended abnormally.
    SymbolPanicked,
    /// The factory ended abnormally.
    FactoryPanicked,
}

/// The message that reports a fault met on the library at `path`.
pub open spec fn fault_message(path: Seq<char>, fault: LoadFault) -> Seq<char> {
    match fault {
        LoadFault::OpenFailed(reason) => "无法加载库 "@ + path + ": "@ + reason@,
        LoadFault::OpenPanicked => "加载库时发生严重错误，可能是ABI不兼容: "@ + path,
        LoadFault::SymbolMissing(reason) => "找不到 create_plugin 函数: "@ + reason@,
        LoadFault::SymbolPanicked => "解析 create_plugin 符号时发生严重错误: "@ + path,
        LoadFault::FactoryPanicked => "调用 create_plugin 时发生严重错误: "@ + path,
    }
}

/// Turns a fault into the error that is reported for it.
pub fn load_fault_error(path: &str, fault: &LoadFault) -> (e: PluginError)
    ensures
        e matches PluginError::LoadError { message } && message@ == fault_message(path@, *fault),
{
    let message = match fault {
        LoadFault::OpenFailed(reason) => {
            let mut m = "无法加载库 ".to_string();
            m.append(path);
            m.append(": ");
            m.append(reason.as_str());
            m
        },
        LoadFault::OpenPanicked => {
            let mut m = "加载库时发生严重错误，可能是ABI不兼容: ".to_string();
            m.append(path);
            m
        },
        LoadFault::SymbolMissing(reason) => {
            let mut m = "找不到 create_plugin 函数: ".to_string();
            m.append(reason.as_str());
            m
        },
        LoadFault::SymbolPanicked => {
            let mut m = "解析 create_plugin 符号时发生严重错误: ".to_string();
            m.append(path);
            m
        },
        LoadFault::FactoryPanicked => {
            let mut m = "调用 create_plugin 时发生严重错误: ".to_string();
            m.append(path);
            m
        },
    };
    PluginError::LoadError { message }
}

/// Settles a load once the plugin has answered its initialisation: the
/// record on success, else an `InitError` that carries the plugin's name and
/// its own account of the failure.
pub fn init_outcome<P: Plugin + ?Sized>(
    record: PluginRecord<P>,
    answer: Result<(), PluginError>,
) -> (r: Result<PluginRecord<P>, PluginError>)
    ensures
        match answer {
            Ok(()) => r matches Ok(ready) && ready == record,
            Err(cause) => r matches Err(PluginError::InitError { plugin_name, message })
                && plugin_name@ == record.plugin().reported_name() && message@ == cause.text(),
        },
{
    match answer {
        Ok(()) => Ok(record),
        Err(cause) => Err(
            PluginError::InitError {
                plugin_name: record.instance().name().to_string(),
                message: cause.to_text(),
            },
        ),
    }
}

/// Finishes a load: initialises the plugin of a fresh record in `context`.
///
/// A plugin that refuses to initialise is dropped together with its library
/// and is never registered; the error names it.
pub fn complete_load<P: Plugin + ?Sized>(record: PluginRecord<P>, context: &PluginContext) -> (r:
    Result<PluginRecord<P>, PluginError>)
    ensures
        r matches Ok(ready) ==> ready.owns_library() == record.owns_library(),
        r matches Err(e) ==> e is InitError,
{
    let mut record = record;
    let answer = record.initialize(context);
    init_outcome(record, answer)
}

/// How the attempt on one directory entry ended.
pub enum LoadOutcome<P: Plugin + ?Sized> {
    /// The entry itself could not be read.
    Unreadable,
    /// The entry is no candidate plugin; it was left alone.
    Skipped,
    /// A plugin was constructed and initialised.
    Loaded(PluginRecord<P>),
    /// Loading failed with a typed error.
    Failed(PluginError),
    /// Loading ended abnormally; the payload of the panic is given.
    Panicked(String),
}

/// One directory entry with the outcome of its load.
pub struct LoadAttempt<P: Plugin + ?Sized> {
    pub file_name: String,
    pub outcome: LoadOutcome<P>,
}

/// One load that failed: the file and the reason.
#[derive(Clone, Debug)]
pub struct LoadFailure {
    pub file_name: String,
    pub reason: String,
}

/// The account of one round of loading.
#[derive(Clone, Debug)]
pub struct LoadSummary {
    /// How many plugins were loaded and registered.
    pub loaded: usize,
    /// How many entries failed.
    pub failed: usize,
    /// The failures that can be tied to a file, in directory order.
    pub failures: Vec<LoadFailure>,
}

/// How many of the attempts ended in a loaded plugin.
pub open spec fn loaded_count<P: Plugin + ?Sized>(attempts: Seq<LoadAttempt<P>>) -> nat
    decreases attempts.len(),
{
    if attempts.len() == 0 {
        0
    } else {
        loaded_count(attempts.drop_last()) + if attempts.last().outcome is Loaded {
            1nat
        } else {
            0nat
        }
    }
}

/// How many of the attempts failed.
pub open spec fn failed_count<P: Plugin + ?Sized>(attempts: Seq<LoadAttempt<P>>) -> nat
    decreases attempts.len(),
{
    if attempts.len() == 0 {
        0
    } else {
        failed_count(attempts.drop_last()) + if attempts.last().outcome is Loaded
            || attempts.last().outcome is Skipped {
            0nat
        } else {
            1nat
        }
    }
}

/// The reason reported for a failed attempt, where it has one.
pub open spec fn failure_reason<P: Plugin + ?Sized>(outcome: LoadOutcome<P>) -> Option<Seq<char>> {
    match outcome {
        LoadOutcome::Failed(e) => Some(e.text()),
        LoadOutcome::Panicked(payload) => Some("严重错误 - "@ + payload@),
        _ => None,
    }
}

/// The `(file, reason)` pairs of the attempts that failed with a reason, in
/// order.
pub open spec fn failures_of<P: Plugin + ?Sized>(attempts: Seq<LoadAttempt<P>>) -> Seq<
    (Seq<char>, Seq<char>),
>
    decreases attempts.len(),
{
    if attempts.len() == 0 {
        Seq::empty()
    } else {
        let before = failures_of(attempts.drop_last());
        match failure_reason(attempts.last().outcome) {
            Some(reason) => before.push((attempts.last().file_name@, reason)),
            None => before,
        }
    }
}

/// The registry after every loaded plugin of `attempts` was registered, in
/// order, under the normalized form of the name it reports.
pub open spec fn registry_after<P: Plugin + ?Sized>(
    registry: Seq<(Seq<char>, PluginRecord<P>)>,
    attempts: Seq<LoadAttempt<P>>,
) -> Seq<(Seq<char>, PluginRecord<P>)>
    decreases attempts.len(),
{
    if attempts.len() == 0 {
        registry
    } else {
        let before = registry_after(registry, attempts.drop_last());
        match attempts.last().outcome {
            LoadOutcome::Loaded(record) => upsert(
                before,
                normalized(record.plugin().reported_name()),
                record,
            ),
            _ => before,
        }
    }
}

/// The names of a registry, in order.
pub open spec fn registry_names<P: Plugin + ?Sized>(
    registry: Seq<(Seq<char>, PluginRecord<P>)>,
) -> Seq<Seq<char>> {
    registry.map_values(|e: (Seq<char>, PluginRecord<P>)| e.0)
}

/// The registry names under which the loaded plugins of `attempts` ask to be
/// registered, in order.
pub open spec fn loaded_names<P: Plugin + ?Sized>(attempts: Seq<LoadAttempt<P>>) -> Seq<Seq<char>>
    decreases attempts.len(),
{
    if attempts.len() == 0 {
        Seq::empty()
    } else {
        let before = loaded_names(attempts.drop_last());
        match attempts.last().outcome {
            LoadOutcome::Loaded(record) => before.push(normalized(record.plugin().reported_name())),
            _ => before,
        }
    }
}

/// Registering keeps every name in place and adds the name if it is new.
pub proof fn lemma_upsert_names<P: Plugin + ?Sized>(
    registry: Seq<(Seq<char>, PluginRecord<P>)>,
    name: Seq<char>,
    record: PluginRecord<P>,
)
    ensures
        registry_names(upsert(registry, name, record)) == if registry_names(registry).contains(
            name,
        ) {
            registry_names(registry)
        } else {
            registry_names(registry).push(name)
        },
    decreases registry.len(),
{
    let names = registry_names(registry);
    if registry.len() == 0 {
        assert(registry_names(upsert(registry, name, record)) =~= names.push(name));
    } else if registry[0].0 == name {
        assert(names[0] == name);
        assert(registry_names(upsert(registry, name, record)) =~= names);
    } else {
        let rest = registry.skip(1);
        lemma_upsert_names(rest, name, record);
        let rest_names = registry_names(rest);
        let inner = upsert(rest, name, record);
        assert(rest_names =~= names.skip(1));
        assert(upsert(registry, name, record) == seq![registry[0]] + inner);
        assert(registry_names(seq![registry[0]] + inner) =~= seq![names[0]] + registry_names(
            inner,
        ));
        if names.contains(name) {
            let k = choose|k: int| 0 <= k < names.len() && names[k] == name;
            assert(rest_names[k - 1] == name);
            assert(rest_names.contains(name));
            assert(seq![names[0]] + rest_names =~= names);
        } else {
            if rest_names.contains(name) {
                let k = choose|k: int| 0 <= k < rest_names.len() && rest_names[k] == name;
                assert(names[k + 1] == name);
            }
            assert(seq![names[0]] + rest_names.push(name) =~= names.push(name));
        }
    }
}

/// The names of the registry after a round of loading: the names it had,
/// followed by the new names among the loaded plugins, each once, in the
/// order in which it came first.
pub proof fn lemma_names_after_loading<P: Plugin + ?Sized>(
    registry: Seq<(Seq<char>, PluginRecord<P>)>,
    attempts: Seq<LoadAttempt<P>>,
)
    ensures
        registry.len() <= registry_after(registry, attempts).len() <= registry.len()
            + loaded_count(attempts),
        (registry_names(registry) + loaded_names(attempts)).no_duplicates() ==> registry_names(
            registry_after(registry, attempts),
        ) == registry_names(registry) + loaded_names(attempts),
    decreases attempts.len(),
{
    if attempts.len() == 0 {
        assert(registry_names(registry) + loaded_names(attempts) =~= registry_names(registry));
    } else {
        let front = attempts.drop_last();
        lemma_names_after_loading(registry, front);
        let before = registry_after(registry, front);
        match attempts.last().outcome {
            LoadOutcome::Loaded(record) => {
                let name = normalized(record.plugin().reported_name());
                lemma_upsert_names(before, name, record);
                assert(registry_names(upsert(before, name, record)).len() == upsert(
                    before,
                    name,
                    record,
                ).len());
                assert(registry_names(before).len() == before.len());
                let all = registry_names(registry) + loaded_names(attempts);
                let most = registry_names(registry) + loaded_names(front);
                assert(all =~= most.push(name));
                if all.no_duplicates() {
                    assert forall|i: int, j: int|
                        0 <= i < most.len() && 0 <= j < most.len() && i != j implies most[i]
                        != most[j] by {
                        assert(all[i] == most[i] && all[j] == most[j]);
                    }
                    assert(most.no_duplicates());
                    if most.contains(name) {
                        let k = choose|k: int| 0 <= k < most.len() && most[k] == name;
                        assert(all[k] == name && all[most.len() as int] == name);
                    }
                }
            },
            _ => {},
        }
    }
}

/// Where the loaded plugins report names that differ from each other and from
/// every name already registered, a round of loading registers exactly as
/// many plugins as were loaded. The failures that are listed by file are
/// never more than the entries that failed.
pub proof fn lemma_distinct_loads_all_register<P: Plugin + ?Sized>(
    registry: Seq<(Seq<char>, PluginRecord<P>)>,
    attempts: Seq<LoadAttempt<P>>,
)
    requires
        (registry_names(registry) + loaded_names(attempts)).no_duplicates(),
    ensures
        registry_after(registry, attempts).len() == registry.len() + loaded_count(attempts),
        failures_of(attempts).len() <= failed_count(attempts),
    decreases attempts.len(),
{
    lemma_names_after_loading(registry, attempts);
    lemma_loaded_names_len(attempts);
    lemma_failures_len(attempts);
    assert(registry_names(registry_after(registry, attempts)).len() == registry_after(
        registry,
        attempts,
    ).len());
}

proof fn lemma_loaded_names_len<P: Plugin + ?Sized>(attempts: Seq<LoadAttempt<P>>)
    ensures
        loaded_names(attempts).len() == loaded_count(attempts),
    decreases attempts.len(),
{
    if attempts.len() > 0 {
        lemma_loaded_names_len(attempts.drop_last());
    }
}

proof fn lemma_failures_len<P: Plugin + ?Sized>(attempts: Seq<LoadAttempt<P>>)
    ensures
        failures_of(attempts).len() <= failed_count(attempts),
    decreases attempts.len(),
{
    if attempts.len() > 0 {
        lemma_failures_len(attempts.drop_last());
    }
}

/// The `(file, reason)` pairs of a list of failures.
pub open spec fn failure_pairs(failures: Seq<LoadFailure>) -> Seq<(Seq<char>, Seq<char>)> {
    failures.map_values(|f: LoadFailure| (f.file_name@, f.reason@))
}

/// The file names of the attempts, in order.
pub open spec fn attempt_names<P: Plugin + ?Sized>(attempts: Seq<LoadAttempt<P>>) -> Seq<
    Seq<char>,
> {
    attempts.map_values(|a: LoadAttempt<P>| a.file_name@)
}

/// The attempts at the given positions, in the order of the positions.
pub open spec fn picked<P: Plugin + ?Sized>(
    attempts: Seq<LoadAttempt<P>>,
    order: Seq<usize>,
) -> Seq<LoadAttempt<P>> {
    order.map_values(|i: usize| attempts[i as int])
}

/// The attempts in the order in which they are taken in: by file name,
/// whatever order the directory listing had.
pub open spec fn in_load_order<P: Plugin + ?Sized>(attempts: Seq<LoadAttempt<P>>) -> Seq<
    LoadAttempt<P>,
> {
    picked(attempts, load_order(attempt_names(attempts)))
}

/// Puts the attempts in the order of their file names; attempts on the same
/// name keep their order.
pub fn sort_attempts<P: Plugin + ?Sized>(attempts: Vec<LoadAttempt<P>>) -> (sorted: Vec<
    LoadAttempt<P>,
>)
    ensures
        sorted@ == in_load_order(attempts@),
        sorted@.len() == attempts@.len(),
{
    let ghost all = attempts@;
    let ghost names = attempt_names(all);
    let ghost precedes = file_name_order(names);
    let ghost places = all_positions(all.len());
    let mut pending = reversed(attempts);
    let mut sorted: Vec<LoadAttempt<P>> = Vec::new();
    let ghost mut order: Seq<usize> = Seq::empty();
    let ghost mut done: int = 0;
    proof {
        assert(places.take(0) =~= Seq::<usize>::empty());
        assert(sorted@ =~= picked(all, order));
    }
    while pending.len() > 0
        invariant
            0 <= done,
            done + pending@.len() == all.len(),
            forall|k: int|
                0 <= k < pending@.len() ==> #[trigger] pending@[k] == all[all.len() - 1 - k],
            names == attempt_names(all),
            precedes == file_name_order(names),
            places == all_positions(all.len()),
            order == arranged(precedes, places.take(done)),
            order.len() == done,
            forall|k: int| 0 <= k < order.len() ==> (#[trigger] order[k]) < done,
            sorted@ == picked(all, order),
        decreases pending@.len(),
    {
        let attempt = pending.pop().unwrap();
        let name = chars_of(attempt.file_name.as_str());
        let ghost x: int = done;
        proof {
            assert(attempt == all[x]);
            assert(names[x] == attempt.file_name@);
        }
        let mut at: usize = 0;
        assert(order.skip(0) == order);
        while at < sorted.len() && !text_before(&name, &chars_of(sorted[at].file_name.as_str()))
            invariant
                at <= sorted@.len(),
                0 <= x < all.len(),
                x == done,
                sorted@ == picked(all, order),
                order.len() == done,
                forall|k: int| 0 <= k < order.len() ==> (#[trigger] order[k]) < done,
                names == attempt_names(all),
                precedes == file_name_order(names),
                name@ == names[x],
                slot(precedes, order, x) == at + slot(precedes, order.skip(at as int), x),
            decreases sorted@.len() - at,
        {
            proof {
                let rest = order.skip(at as int);
                assert(rest[0] == order[at as int]);
                assert(rest.skip(1) == order.skip(at + 1));
                assert(sorted@[at as int] == all[order[at as int] as int]);
                assert(names[order[at as int] as int] == all[order[at as int] as int].file_name@);
            }
            at = at + 1;
        }
        proof {
            let rest = order.skip(at as int);
            if at < sorted@.len() {
                assert(rest[0] == order[at as int]);
                assert(sorted@[at as int] == all[order[at as int] as int]);
                assert(names[order[at as int] as int] == all[order[at as int] as int].file_name@);
            }
            assert(slot(precedes, rest, x) == 0);
        }
        let ghost before = order;
        sorted.insert(at, attempt);
        proof {
            assert(places.take(done + 1).drop_last() == places.take(done));
            assert(places.take(done + 1).last() == done as usize);
            order = before.insert(at as int, done as usize);
            assert(order == arranged(precedes, places.take(done + 1)));
            assert(sorted@ =~= picked(all, order));
            assert forall|k: int| 0 <= k < order.len() implies (#[trigger] order[k]) < done + 1 by {
                if k < at {
                    assert(order[k] == before[k]);
                } else if k > at {
                    assert(order[k] == before[k - 1]);
                }
            }
            done = done + 1;
        }
    }
    assert(places.take(done) == places);
    sorted
}

/// Whether `summary` is the account of a round of loading with the given
/// attempts: the counts of loaded and failed entries, and the failures that
/// belong to a file, in the order of the file names.
pub open spec fn is_summary_of<P: Plugin + ?Sized>(
    summary: LoadSummary,
    attempts: Seq<LoadAttempt<P>>,
) -> bool {
    &&& summary.loaded == loaded_count(in_load_order(attempts))
    &&& summary.failed == failed_count(in_load_order(attempts))
    &&& failure_pairs(summary.failures@) == failures_of(in_load_order(attempts))
}

impl<P: Plugin + ?Sized> PluginManager<P> {
    /// Takes in the outcome of one round of loading.
    ///
    /// The attempts are taken in the order of their file names, so that the
    /// registration order does not depend on the order of the directory
    /// listing. Every loaded plugin is registered under the normalized form
    /// of the name it reports; every failure is counted and, where it belongs
    /// to a file, listed with its reason. No failure keeps a later plugin out.
    pub fn load_plugins(&mut self, attempts: Vec<LoadAttempt<P>>) -> (summary: LoadSummary)
        requires
            old(self).wf(),
        ensures
            final(self).wf(),
            summary.loaded == loaded_count(in_load_order(attempts@)),
            summary.failed == failed_count(in_load_order(attempts@)),
            failure_pairs(summary.failures@) == failures_of(in_load_order(attempts@)),
            final(self).registry() == registry_after(
                old(self).registry(),
                in_load_order(attempts@),
            ),
            final(self).context() == old(self).context(),
            final(self).hot_reload() == old(self).hot_reload(),
            final(self).initialized() == old(self).initialized(),
            final(self).base_dir() == old(self).base_dir(),
            final(self).plugins_dir() == old(self).plugins_dir(),
    {
        let attempts = sort_attempts(attempts);
        let ghost all = attempts@;
        let total = attempts.len();
        let mut loaded: usize = 0;
        let mut failed: usize = 0;
        let mut failures: Vec<LoadFailure> = Vec::new();
        let ghost mut done: int = 0;
        // Attempts are taken from the end of the reversed list, so that each
        // record can be moved into the registry.
        let mut pending = reversed(attempts);
        while pending.len() > 0
            invariant
                self.wf(),
                done + pending@.len() == all.len(),
                0 <= done,
                forall|k: int|
                    0 <= k < pending@.len() ==> #[trigger] pending@[k] == all[all.len() - 1 - k],
                loaded == loaded_count(all.take(done)),
                failed == failed_count(all.take(done)),
                loaded + failed <= done,
                failure_pairs(failures@) == failures_of(all.take(done)),
                self.registry() == registry_after(old(self).registry(), all.take(done)),
                self.context() == old(self).context(),
                self.hot_reload() == old(self).hot_reload(),
                self.initialized() == old(self).initialized(),
                self.base_dir() == old(self).base_dir(),
                self.plugins_dir() == old(self).plugins_dir(),
                all.len() == total,
            decreases pending@.len(),
        {
            let attempt = pending.pop().unwrap();
            proof {
                assert(attempt == all[done]);
                assert(all.take(done + 1).drop_last() == all.take(done));
                assert(all.take(done + 1).last() == all[done]);
            }
            let LoadAttempt { file_name, outcome } = attempt;
            match outcome {
                LoadOutcome::Unreadable => {
                    failed = failed + 1;
                },
                LoadOutcome::Skipped => {},
                LoadOutcome::Loaded(record) => {
                    let name = record.instance().name().to_string();
                    let _ = self.register(name.as_str(), record);
                    loaded = loaded + 1;
                },
                LoadOutcome::Failed(e) => {
                    failures.push(LoadFailure { file_name, reason: e.to_text() });
                    failed = failed + 1;
                    assert(failure_pairs(failures@) =~= failures_of(all.take(done)).push(
                        (all[done].file_name@, e.text()),
                    ));
                },
                LoadOutcome::Panicked(payload) => {
                    let mut reason = "严重错误 - ".to_string();
                    reason.append(payload.as_str());
                    failures.push(LoadFailure { file_name, reason });
                    failed = failed + 1;
                    assert(failure_pairs(failures@) =~= failures_of(all.take(done)).push(
                        (all[done].file_name@, "严重错误 - "@ + payload@),
                    ));
                },
            }
            proof {
                done = done + 1;
            }
        }
        proof {
            assert(all.take(done) == all);
        }
        LoadSummary { loaded, failed, failures }
    }

    /// Initialises the host with the outcome of a first round of loading.
    pub fn init(&mut self, attempts: Vec<LoadAttempt<P>>) -> (r: Result<LoadSummary, PluginError>)
        requires
            old(self).wf(),
        ensures
            final(self).wf(),
            final(self).initialized(),
            r matches Ok(summary) && is_summary_of(summary, attempts@),
            final(self).registry() == registry_after(
                old(self).registry(),
                in_load_order(attempts@),
            ),
            final(self).context() == old(self).context(),
            final(self).hot_reload() == old(self).hot_reload(),
    {
        let summary = self.load_plugins(attempts);
        self.mark_initialized();
        Ok(summary)
    }
}

} // verus!
