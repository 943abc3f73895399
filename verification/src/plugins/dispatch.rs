//! Calls that reach every registered plugin: checkpoints and teardown.
//!
//! Every plugin is called, in registration order, whatever the plugins before
//! it answered. The failures are gathered and folded into one result.

use vstd::prelude::*;
use vstd::string::*;
use crate::plugins::error::{PluginError, PluginHook};
use crate::plugins::manager::PluginManager;
use crate::plugins::{Plugin, PluginRecord};
use crate::text::{join, join_strings, texts};

verus! {

/// A call that goes to every registered plugin.
#[derive(Clone, Copy, Debug, PartialEq, Eq, Structural)]
pub enum Call {
    /// The pipeline reached a checkpoint.
    Checkpoint(PluginHook),
    /// The plugins are asked to release what they hold.
    Release,
}

/// One plugin's failure at a checkpoint or at teardown.
#[derive(Clone, Debug)]
pub struct PluginFailure {
    /// The registry name of the plugin.
    pub plugin_name: String,
    /// The plugin's own account of the failure.
    pub message: String,
}

/// A list of failures as plain values: the registry name of each plugin with
/// its account of the failure.
pub open spec fn failure_views(failures: Seq<PluginFailure>) -> Seq<(Seq<char>, Seq<char>)> {
    failures.map_values(|f: PluginFailure| (f.plugin_name@, f.message@))
}

/// What a plugin answers to a call: `None` where it succeeds, else its
/// account of the failure.
pub open spec fn answer<P: Plugin + ?Sized>(plugin: &P, call: Call) -> Option<Seq<char>> {
    match call {
        Call::Checkpoint(hook) => plugin.hook_answer(hook),
        Call::Release => plugin.cleanup_answer(),
    }
}

/// The failures of a call that goes to every plugin of a registry: for each
/// plugin that fails, in registration order, its registry name and its
/// account of the failure.
pub open spec fn failures_at<P: Plugin + ?Sized>(
    registry: Seq<(Seq<char>, PluginRecord<P>)>,
    call: Call,
) -> Seq<(Seq<char>, Seq<char>)>
    decreases registry.len(),
{
    if registry.len() == 0 {
        Seq::empty()
    } else {
        let before = failures_at(registry.drop_last(), call);
        match answer(registry.last().1.plugin(), call) {
            Some(account) => before.push((registry.last().0, account)),
            None => before,
        }
    }
}

/// The line that reports one failure of a call.
pub open spec fn failure_line(failure: (Seq<char>, Seq<char>), call: Call) -> Seq<char> {
    match call {
        Call::Checkpoint(hook) => "插件 "@ + failure.0 + " 执行钩子 "@ + hook.name_text()
            + " 失败: "@ + failure.1,
        Call::Release => "插件 "@ + failure.0 + " 清理失败: "@ + failure.1,
    }
}

/// The lines that report the failures of a call, in order.
pub open spec fn failure_lines(failures: Seq<(Seq<char>, Seq<char>)>, call: Call) -> Seq<
    Seq<char>,
> {
    failures.map_values(|f: (Seq<char>, Seq<char>)| failure_line(f, call))
}

/// Whether `r` is the outcome of a call in which exactly `failures` were
/// met: success where there are none; else one error that lists every
/// failure in order, a `HookError` under the plugin name `multiple` for a
/// checkpoint and a `CleanupError` for a teardown.
pub open spec fn is_outcome(
    r: Result<(), PluginError>,
    call: Call,
    failures: Seq<(Seq<char>, Seq<char>)>,
) -> bool {
    if failures.len() == 0 {
        r is Ok
    } else {
        match call {
            Call::Checkpoint(hook) => {
                &&& r matches Err(PluginError::HookError { plugin_name, hook_name, message })
                &&& plugin_name@ == "multiple"@
                &&& hook_name@ == hook.name_text()
                &&& message@ == join(failure_lines(failures, call), "; "@)
            },
            Call::Release => {
                &&& r matches Err(PluginError::CleanupError { message })
                &&& message@ == join(failure_lines(failures, call), "; "@)
            },
        }
    }
}

/// Whether `r` is the outcome of a dispatch of `hook` in which exactly
/// `failures` were met.
pub open spec fn is_hook_outcome(
    r: Result<(), PluginError>,
    hook: PluginHook,
    failures: Seq<(Seq<char>, Seq<char>)>,
) -> bool {
    is_outcome(r, Call::Checkpoint(hook), failures)
}

/// Whether `r` is the outcome of a teardown in which exactly `failures` were
/// met.
pub open spec fn is_cleanup_outcome(
    r: Result<(), PluginError>,
    failures: Seq<(Seq<char>, Seq<char>)>,
) -> bool {
    is_outcome(r, Call::Release, failures)
}

/// Takes note of what the plugin registered as `name` answered: a failure is
/// added to the list with the plugin's account of it, a success leaves the
/// list as it is.
pub fn note_answer(failures: &mut Vec<PluginFailure>, name: &str, answer: Result<(), PluginError>)
    ensures
        match answer {
            Ok(_) => final(failures)@ == old(failures)@,
            Err(e) => {
                &&& final(failures)@.len() == old(failures)@.len() + 1
                &&& final(failures)@.drop_last() == old(failures)@
                &&& final(failures)@.last().plugin_name@ == name@
                &&& final(failures)@.last().message@ == e.text()
            },
        },
{
    match answer {
        Ok(()) => {},
        Err(e) => {
            failures.push(PluginFailure { plugin_name: name.to_string(), message: e.to_text() });
            assert(failures@.drop_last() =~= old(failures)@);
        },
    }
}

/// Folds the failures of one call into its result.
pub fn aggregate(call: &Call, failures: &Vec<PluginFailure>) -> (r: Result<(), PluginError>)
    ensures
        is_outcome(r, *call, failure_views(failures@)),
{
    if failures.len() == 0 {
        return Ok(());
    }
    let ghost lines = failure_lines(failure_views(failures@), *call);
    let mut rendered: Vec<String> = Vec::new();
    let mut i: usize = 0;
    while i < failures.len()
        invariant
            i <= failures.len(),
            rendered@.len() == i,
            lines == failure_lines(failure_views(failures@), *call),
            texts(rendered@) == lines.take(i as int),
        decreases failures.len() - i,
    {
        let mut line = "插件 ".to_string();
        line.append(failures[i].plugin_name.as_str());
        match call {
            Call::Checkpoint(hook) => {
                line.append(" 执行钩子 ");
                line.append(hook.name());
                line.append(" 失败: ");
            },
            Call::Release => {
                line.append(" 清理失败: ");
            },
        }
        line.append(failures[i].message.as_str());
        rendered.push(line);
        assert(texts(rendered@) == lines.take(i + 1)) by {
            assert(failure_views(failures@)[i as int] == (
                failures@[i as int].plugin_name@,
                failures@[i as int].message@,
            ));
            assert(texts(rendered@).drop_last() == lines.take(i as int));
            assert(texts(rendered@).last() == lines[i as int]);
            assert(texts(rendered@) =~= lines.take(i + 1));
        }
        i = i + 1;
    }
    assert(lines.take(i as int) == lines);
    let message = join_strings(&rendered, "; ");
    match call {
        Call::Checkpoint(hook) => Err(
            PluginError::HookError {
                plugin_name: "multiple".to_string(),
                hook_name: hook.name().to_string(),
                message,
            },
        ),
        Call::Release => Err(PluginError::CleanupError { message }),
    }
}

/// Folds the failures of one dispatch of `hook` into its result.
pub fn aggregate_hook_failures(hook: &PluginHook, failures: &Vec<PluginFailure>) -> (r: Result<
    (),
    PluginError,
>)
    ensures
        is_hook_outcome(r, *hook, failure_views(failures@)),
{
    aggregate(&Call::Checkpoint(*hook), failures)
}

/// Folds the failures of one teardown into its result.
pub fn aggregate_cleanup_failures(failures: &Vec<PluginFailure>) -> (r: Result<(), PluginError>)
    ensures
        is_cleanup_outcome(r, failure_views(failures@)),
{
    aggregate(&Call::Release, failures)
}

impl<P: Plugin + ?Sized> PluginManager<P> {
    /// Makes `call` to every registered plugin, in registration order, and
    /// hands back the failures. No failure keeps a later plugin from being
    /// called.
    pub fn dispatch(&self, call: &Call) -> (failures: Vec<PluginFailure>)
        requires
            self.wf(),
        ensures
            failure_views(failures@) == failures_at(self.registry(), *call),
    {
        let names = self.plugin_names();
        let n = self.len();
        let mut failures: Vec<PluginFailure> = Vec::new();
        let mut i: usize = 0;
        proof {
            self.lemma_registry_halves();
            assert(texts(names@).len() == names@.len());
            assert(failure_views(failures@) =~= failures_at(self.registry().take(0), *call));
        }
        while i < n
            invariant
                i <= n,
                names@.len() == n,
                n == self.records().len(),
                n == self.registry().len(),
                texts(names@) == self.names(),
                self.names() == self.registry().map_values(
                    |e: (Seq<char>, PluginRecord<P>)| e.0,
                ),
                self.records() == self.registry().map_values(
                    |e: (Seq<char>, PluginRecord<P>)| e.1,
                ),
                failure_views(failures@) == failures_at(self.registry().take(i as int), *call),
            decreases n - i,
        {
            let plugin = self.plugin_at(i);
            let answered = match call {
                Call::Checkpoint(hook) => plugin.execute_hook(hook),
                Call::Release => plugin.cleanup(),
            };
            let ghost so_far = failures@;
            let ghost said = answered;
            proof {
                let done = self.registry().take(i + 1);
                assert(done.drop_last() == self.registry().take(i as int));
                assert(done.last() == self.registry()[i as int]);
                assert(self.records()[i as int] == self.registry()[i as int].1);
                assert(self.names()[i as int] == self.registry()[i as int].0);
                assert(texts(names@)[i as int] == names@[i as int]@);
            }
            note_answer(&mut failures, names[i].as_str(), answered);
            proof {
                match said {
                    Ok(_) => {},
                    Err(e) => {
                        assert(failure_views(failures@) =~= failure_views(so_far).push(
                            (names@[i as int]@, e.text()),
                        ));
                    },
                }
            }
            i = i + 1;
        }
        assert(self.registry().take(i as int) == self.registry());
        failures
    }

    /// Notifies every registered plugin of `hook`, in registration order, and
    /// hands back the failures: exactly those of the plugins that fail.
    pub fn dispatch_hook(&self, hook: &PluginHook) -> (failures: Vec<PluginFailure>)
        requires
            self.wf(),
        ensures
            failure_views(failures@) == failures_at(self.registry(), Call::Checkpoint(*hook)),
    {
        self.dispatch(&Call::Checkpoint(*hook))
    }

    /// Notifies every registered plugin of `hook` and folds their failures
    /// into one result: `Ok` where every plugin succeeds, else one error that
    /// names exactly the plugins that fail, each with its own account.
    pub fn execute_hook(&self, hook: &PluginHook) -> (r: Result<(), PluginError>)
        requires
            self.wf(),
        ensures
            is_hook_outcome(r, *hook, failures_at(self.registry(), Call::Checkpoint(*hook))),
            r is Ok <==> failures_at(self.registry(), Call::Checkpoint(*hook)).len() == 0,
            self.names().len() == 0 ==> r is Ok,
    {
        let failures = self.dispatch_hook(hook);
        proof {
            self.lemma_registry_halves();
            lemma_failures_are_the_failing(self.registry(), Call::Checkpoint(*hook));
        }
        aggregate_hook_failures(hook, &failures)
    }

    /// Asks every registered plugin to release what it holds, in registration
    /// order, and hands back the failures: exactly those of the plugins that
    /// fail.
    pub fn dispatch_cleanup(&self) -> (failures: Vec<PluginFailure>)
        requires
            self.wf(),
        ensures
            failure_views(failures@) == failures_at(self.registry(), Call::Release),
    {
        self.dispatch(&Call::Release)
    }

    /// Asks every registered plugin to release what it holds and folds their
    /// failures into one result: `Ok` where every plugin succeeds, else one
    /// error that names exactly the plugins that fail.
    pub fn cleanup(&self) -> (r: Result<(), PluginError>)
        requires
            self.wf(),
        ensures
            is_cleanup_outcome(r, failures_at(self.registry(), Call::Release)),
            r is Ok <==> failures_at(self.registry(), Call::Release).len() == 0,
            self.names().len() == 0 ==> r is Ok,
    {
        let failures = self.dispatch_cleanup();
        proof {
            self.lemma_registry_halves();
            lemma_failures_are_the_failing(self.registry(), Call::Release);
        }
        aggregate_cleanup_failures(&failures)
    }
}

/// Whether `failure` is the failure of a plugin of the registry: the plugin
/// is registered under the name and answers the call with the account.
pub open spec fn fails_with<P: Plugin + ?Sized>(
    registry: Seq<(Seq<char>, PluginRecord<P>)>,
    call: Call,
    failure: (Seq<char>, Seq<char>),
) -> bool {
    exists|i: int|
        0 <= i < registry.len() && (#[trigger] registry[i]).0 == failure.0 && answer(
            registry[i].1.plugin(),
            call,
        ) == Some(failure.1)
}

/// The failures of a call are those of the failing plugins and of no other:
/// there is none exactly where every plugin succeeds, every failing plugin is
/// listed under its registry name with its own account, and every failure
/// listed is that of a failing plugin.
pub proof fn lemma_failures_are_the_failing<P: Plugin + ?Sized>(
    registry: Seq<(Seq<char>, PluginRecord<P>)>,
    call: Call,
)
    ensures
        failures_at(registry, call).len() <= registry.len(),
        failures_at(registry, call).len() == 0 <==> (forall|i: int|
            0 <= i < registry.len() ==> answer((#[trigger] registry[i]).1.plugin(), call) is None),
        forall|i: int|
            0 <= i < registry.len() && answer((#[trigger] registry[i]).1.plugin(), call) is Some
                ==> failures_at(registry, call).contains(
                (registry[i].0, answer(registry[i].1.plugin(), call)->Some_0),
            ),
        forall|k: int|
            0 <= k < failures_at(registry, call).len() ==> fails_with(
                registry,
                call,
                #[trigger] failures_at(registry, call)[k],
            ),
    decreases registry.len(),
{
    if registry.len() > 0 {
        let most = registry.drop_last();
        let last = registry.last();
        let before = failures_at(most, call);
        let all = failures_at(registry, call);
        lemma_failures_are_the_failing(most, call);
        assert forall|i: int| 0 <= i < most.len() implies #[trigger] most[i] == registry[i] by {}
        assert forall|i: int|
            0 <= i < registry.len() && answer((#[trigger] registry[i]).1.plugin(), call)
                is Some implies all.contains(
            (registry[i].0, answer(registry[i].1.plugin(), call)->Some_0),
        ) by {
            let wanted = (registry[i].0, answer(registry[i].1.plugin(), call)->Some_0);
            if i < most.len() {
                assert(most[i] == registry[i]);
                assert(before.contains(wanted));
                let k = choose|k: int| 0 <= k < before.len() && before[k] == wanted;
                assert(all[k] == wanted);
            } else {
                assert(all[all.len() - 1] == wanted);
            }
        }
        assert forall|k: int| 0 <= k < all.len() implies fails_with(
            registry,
            call,
            #[trigger] all[k],
        ) by {
            if k < before.len() {
                assert(all[k] == before[k]);
                assert(fails_with(most, call, before[k]));
                let i = choose|i: int|
                    0 <= i < most.len() && (#[trigger] most[i]).0 == before[k].0 && answer(
                        most[i].1.plugin(),
                        call,
                    ) == Some(before[k].1);
                assert(most[i] == registry[i]);
            } else {
                assert(registry[registry.len() - 1] == last);
            }
        }
        if all.len() == 0 {
            assert forall|i: int| 0 <= i < registry.len() implies answer(
                (#[trigger] registry[i]).1.plugin(),
                call,
            ) is None by {
                if i < most.len() {
                    assert(most[i] == registry[i]);
                }
            }
        } else if answer(last.1.plugin(), call) is None {
            assert(before.len() > 0);
            let i = choose|i: int|
                0 <= i < most.len() && !(answer((#[trigger] most[i]).1.plugin(), call) is None);
            assert(most[i] == registry[i]);
        } else {
            assert(registry[registry.len() - 1] == last);
        }
    }
}

/// Of two plugins, one that fails at a checkpoint or at teardown and one that
/// succeeds, only the failing one is reported, with its own account,
/// whichever of the two was registered first.
pub proof fn lemma_only_the_failing_is_named<P: Plugin + ?Sized>(
    failing: (Seq<char>, PluginRecord<P>),
    succeeding: (Seq<char>, PluginRecord<P>),
    call: Call,
    account: Seq<char>,
)
    requires
        answer(failing.1.plugin(), call) == Some(account),
        answer(succeeding.1.plugin(), call) is None,
    ensures
        failures_at(seq![failing, succeeding], call) == seq![(failing.0, account)],
        failures_at(seq![succeeding, failing], call) == seq![(failing.0, account)],
{
    let none = Seq::<(Seq<char>, PluginRecord<P>)>::empty();
    assert(seq![failing, succeeding].drop_last() == seq![failing]);
    assert(seq![failing].drop_last() == none);
    assert(seq![succeeding, failing].drop_last() == seq![succeeding]);
    assert(seq![succeeding].drop_last() == none);
    assert(failures_at(none, call) == Seq::<(Seq<char>, Seq<char>)>::empty());
    assert(failures_at(seq![failing], call) =~= seq![(failing.0, account)]);
    assert(failures_at(seq![succeeding], call) =~= Seq::<(Seq<char>, Seq<char>)>::empty());
    assert(failures_at(seq![failing, succeeding], call) =~= seq![(failing.0, account)]);
    assert(failures_at(seq![succeeding, failing], call) =~= seq![(failing.0, account)]);
}

} // verus!
