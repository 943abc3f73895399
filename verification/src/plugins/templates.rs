//! Template functions offered by plugins, and the values that cross the
//! boundary between the renderer and a plugin.
//!
//! Values cross the boundary flattened: a list or a mapping keeps its texts,
//! numbers and flags, and whatever it holds beyond these becomes null.

use vstd::prelude::*;
use vstd::string::*;
use crate::models::value::{Number, Value};
use crate::plugins::error::PluginError;
use crate::plugins::manager::PluginManager;
use crate::plugins::{Plugin, PluginRecord};
use crate::text::{same_text, texts};

verus! {

/// A value as an element of a list or mapping that crosses the boundary:
/// itself where it is a text, a number or a flag, else null.
pub open spec fn leaf(value: Value) -> Value {
    match value {
        Value::String(_) | Value::Number(_) | Value::Bool(_) => value,
        _ => Value::Null,
    }
}

/// Whether `out` reads as `value`: the same variant with the same content,
/// texts compared by their characters. Lists and mappings are not looked
/// into.
pub open spec fn same_scalar(out: Value, value: Value) -> bool {
    match (out, value) {
        (Value::Null, Value::Null) => true,
        (Value::Bool(a), Value::Bool(b)) => a == b,
        (Value::Number(a), Value::Number(b)) => a == b,
        (Value::String(a), Value::String(b)) => a@ == b@,
        _ => false,
    }
}

/// Whether `out` is `value` as it crosses the boundary.
pub open spec fn is_flattened(out: Value, value: Value) -> bool {
    match value {
        Value::Sequence(items) => out matches Value::Sequence(flat) && flat@.len() == items@.len()
            && forall|k: int|
            0 <= k < items@.len() ==> same_scalar(#[trigger] flat@[k], leaf(items@[k])),
        Value::Mapping(entries) => out matches Value::Mapping(flat) && flat@.len()
            == entries@.len() && forall|k: int|
            0 <= k < entries@.len() ==> (#[trigger] flat@[k]).0@ == entries@[k].0@ && same_scalar(
                flat@[k].1,
                leaf(entries@[k].1),
            ),
        _ => same_scalar(out, value),
    }
}

fn flatten_leaf(value: &Value) -> (r: Value)
    ensures
        same_scalar(r, leaf(*value)),
{
    match value {
        Value::String(s) => Value::String(s.clone()),
        Value::Number(n) => Value::Number(*n),
        Value::Bool(b) => Value::Bool(*b),
        _ => Value::Null,
    }
}

/// Takes a value across the boundary.
pub fn flatten(value: &Value) -> (r: Value)
    ensures
        is_flattened(r, *value),
{
    match value {
        Value::Null => Value::Null,
        Value::Bool(b) => Value::Bool(*b),
        Value::Number(n) => Value::Number(*n),
        Value::String(s) => Value::String(s.clone()),
        Value::Sequence(items) => {
            let mut flat: Vec<Value> = Vec::new();
            let mut i: usize = 0;
            while i < items.len()
                invariant
                    i <= items.len(),
                    flat@.len() == i,
                    forall|k: int|
                        0 <= k < i ==> same_scalar(#[trigger] flat@[k], leaf(items@[k])),
                decreases items.len() - i,
            {
                flat.push(flatten_leaf(&items[i]));
                i = i + 1;
            }
            Value::Sequence(flat)
        },
        Value::Mapping(entries) => {
            let mut flat: Vec<(String, Value)> = Vec::new();
            let mut i: usize = 0;
            while i < entries.len()
                invariant
                    i <= entries.len(),
                    flat@.len() == i,
                    forall|k: int|
                        0 <= k < i ==> (#[trigger] flat@[k]).0@ == entries@[k].0@ && same_scalar(
                            flat@[k].1,
                            leaf(entries@[k].1),
                        ),
                decreases entries.len() - i,
            {
                flat.push((entries[i].0.clone(), flatten_leaf(&entries[i].1)));
                i = i + 1;
            }
            Value::Mapping(flat)
        },
    }
}

/// Takes named arguments across the boundary.
pub fn flatten_arguments(args: &Vec<(String, Value)>) -> (r: Vec<(String, Value)>)
    ensures
        r@.len() == args@.len(),
        forall|k: int|
            0 <= k < args@.len() ==> (#[trigger] r@[k]).0@ == args@[k].0@ && is_flattened(
                r@[k].1,
                args@[k].1,
            ),
{
    let mut out: Vec<(String, Value)> = Vec::new();
    let mut i: usize = 0;
    while i < args.len()
        invariant
            i <= args.len(),
            out@.len() == i,
            forall|k: int|
                0 <= k < i ==> (#[trigger] out@[k]).0@ == args@[k].0@ && is_flattened(
                    out@[k].1,
                    args@[k].1,
                ),
        decreases args.len() - i,
    {
        out.push((args[i].0.clone(), flatten(&args[i].1)));
        i = i + 1;
    }
    out
}

/// The message with which the failure of a template function is reported.
pub open spec fn failure_text(name: Seq<char>, reason: Seq<char>) -> Seq<char> {
    "插件函数 '"@ + name + "' 执行失败: "@ + reason
}

/// Takes the answer of a plugin's template function back across the
/// boundary: a value is flattened, a failure is reported under the name of
/// the function.
pub fn bridge_answer(name: &str, answer: &Result<Value, String>) -> (r: Result<Value, String>)
    ensures
        match *answer {
            Ok(value) => r matches Ok(out) && is_flattened(out, value),
            Err(reason) => r matches Err(message) && message@ == failure_text(name@, reason@),
        },
{
    match answer {
        Ok(value) => Ok(flatten(value)),
        Err(reason) => {
            let mut message = "插件函数 '".to_string();
            message.append(name);
            message.append("' 执行失败: ");
            message.append(reason.as_str());
            Err(message)
        },
    }
}

/// A template function and the plugin that offers it.
#[derive(Clone, Debug)]
pub struct TemplateFunction {
    pub name: String,
    /// The position of the plugin in the registry.
    pub plugin: usize,
}

/// A list of template functions as plain values: the name of each with the
/// position of its plugin.
pub open spec fn function_views(functions: Seq<TemplateFunction>) -> Seq<(Seq<char>, int)> {
    functions.map_values(|f: TemplateFunction| (f.name@, f.plugin as int))
}

/// The names of `names`, each with the position `at`.
pub open spec fn offered_at(names: Seq<Seq<char>>, at: int) -> Seq<(Seq<char>, int)> {
    names.map_values(|name: Seq<char>| (name, at))
}

/// Every template function that the plugins of a registry offer, plugin
/// after plugin in registration order, each with the position of its plugin.
pub open spec fn offers<P: Plugin + ?Sized>(records: Seq<PluginRecord<P>>) -> Seq<
    (Seq<char>, int),
>
    decreases records.len(),
{
    if records.len() == 0 {
        Seq::empty()
    } else {
        offers(records.drop_last()) + offered_at(
            records.last().plugin().offered_functions(),
            records.len() - 1,
        )
    }
}

/// The position of the plugin whose offer of `name` is in force: the last
/// offer of that name, if there is one.
pub open spec fn in_force(offers: Seq<(Seq<char>, int)>, name: Seq<char>) -> Option<int>
    decreases offers.len(),
{
    if offers.len() == 0 {
        None
    } else if offers.last().0 == name {
        Some(offers.last().1)
    } else {
        in_force(offers.drop_last(), name)
    }
}

/// Every offer belongs to a registered plugin, and the offers follow the
/// registration order.
pub proof fn lemma_offers_in_order<P: Plugin + ?Sized>(records: Seq<PluginRecord<P>>)
    ensures
        forall|k: int| 0 <= k < offers(records).len() ==> 0 <= (#[trigger] offers(records)[k]).1
            < records.len(),
        forall|k: int, l: int|
            0 <= k < l < offers(records).len() ==> offers(records)[k].1 <= offers(records)[l].1,
        records.len() == 0 ==> offers(records).len() == 0,
    decreases records.len(),
{
    if records.len() > 0 {
        lemma_offers_in_order(records.drop_last());
        let all = offers(records);
        let rest = offers(records.drop_last());
        let last = offered_at(records.last().plugin().offered_functions(), records.len() - 1);
        assert(all == rest + last);
        assert forall|k: int| 0 <= k < all.len() implies 0 <= (#[trigger] all[k]).1
            < records.len() by {
            if k < rest.len() {
                assert(all[k] == rest[k]);
            } else {
                assert(all[k] == last[k - rest.len()]);
            }
        }
        assert forall|k: int, l: int| 0 <= k < l < all.len() implies all[k].1 <= all[l].1 by {
            if l < rest.len() {
                assert(all[k] == rest[k] && all[l] == rest[l]);
            } else {
                assert(all[l] == last[l - rest.len()]);
                if k < rest.len() {
                    assert(all[k] == rest[k]);
                } else {
                    assert(all[k] == last[k - rest.len()]);
                }
            }
        }
    }
}

/// Whether `r` is what crosses back for the answer `answer` of a plugin to a
/// call of `name`: a value flattened, or the failure reported under the name
/// of the function.
pub open spec fn is_bridged(r: Result<Value, String>, name: Seq<char>, answer: Result<Value, String>) -> bool {
    match answer {
        Ok(value) => r matches Ok(out) && is_flattened(out, value),
        Err(reason) => r matches Err(message) && message@ == failure_text(name, reason@),
    }
}

impl<P: Plugin + ?Sized> PluginManager<P> {
    /// The registrations the renderer has to make: every template function
    /// that a registered plugin offers, plugin after plugin in registration
    /// order. Where a name is offered twice, the later offer is the one in
    /// force.
    pub fn register_template_functions(&self) -> (r: Result<Vec<TemplateFunction>, PluginError>)
        requires
            self.wf(),
        ensures
            r matches Ok(functions) && {
                &&& function_views(functions@) == offers(self.records())
                &&& (forall|k: int|
                    0 <= k < functions@.len() ==> (#[trigger] functions@[k]).plugin
                        < self.records().len())
                &&& (forall|k: int, l: int|
                    0 <= k < l < functions@.len() ==> functions@[k].plugin <= functions@[l].plugin)
                &&& (self.records().len() == 0 ==> functions@.len() == 0)
            },
    {
        Ok(self.template_functions())
    }

    fn template_functions(&self) -> (r: Vec<TemplateFunction>)
        requires
            self.wf(),
        ensures
            function_views(r@) == offers(self.records()),
            forall|k: int| 0 <= k < r@.len() ==> (#[trigger] r@[k]).plugin < self.records().len(),
            forall|k: int, l: int| 0 <= k < l < r@.len() ==> r@[k].plugin <= r@[l].plugin,
            self.records().len() == 0 ==> r@.len() == 0,
    {
        let mut out: Vec<TemplateFunction> = Vec::new();
        let n = self.len();
        let mut i: usize = 0;
        assert(function_views(out@) =~= offers(self.records().take(0)));
        while i < n
            invariant
                i <= n,
                n == self.records().len(),
                function_views(out@) == offers(self.records().take(i as int)),
            decreases n - i,
        {
            let names = self.plugin_at(i).get_template_functions();
            let ghost before = function_views(out@);
            let ghost offered = texts(names@);
            let mut j: usize = 0;
            assert(function_views(out@) =~= before + offered_at(offered.take(0), i as int));
            while j < names.len()
                invariant
                    j <= names.len(),
                    i < n,
                    offered == texts(names@),
                    function_views(out@) == before + offered_at(offered.take(j as int), i as int),
                decreases names.len() - j,
            {
                let ghost so_far = out@;
                out.push(TemplateFunction { name: names[j].clone(), plugin: i });
                proof {
                    let added = (offered[j as int], i as int);
                    assert(offered[j as int] == names@[j as int]@);
                    assert(function_views(out@) =~= function_views(so_far).push(added));
                    assert(offered.take(j + 1) =~= offered.take(j as int).push(offered[j as int]));
                    assert(offered_at(offered.take(j + 1), i as int) =~= offered_at(
                        offered.take(j as int),
                        i as int,
                    ).push(added));
                    assert(function_views(out@) =~= before + offered_at(
                        offered.take(j + 1),
                        i as int,
                    ));
                }
                j = j + 1;
            }
            proof {
                let done = self.records().take(i + 1);
                assert(offered.take(j as int) == offered);
                assert(done.drop_last() == self.records().take(i as int));
                assert(done.last() == self.records()[i as int]);
            }
            i = i + 1;
        }
        proof {
            assert(self.records().take(i as int) == self.records());
            lemma_offers_in_order(self.records());
            assert forall|k: int| 0 <= k < out@.len() implies (#[trigger] out@[k]).plugin
                < self.records().len() by {
                assert(function_views(out@)[k].1 == out@[k].plugin);
            }
            assert forall|k: int, l: int| 0 <= k < l < out@.len() implies out@[k].plugin
                <= out@[l].plugin by {
                assert(function_views(out@)[k].1 == out@[k].plugin);
                assert(function_views(out@)[l].1 == out@[l].plugin);
            }
            assert(function_views(out@).len() == out@.len());
        }
        out
    }

    /// The function in force under `name` among `functions`: the last offer
    /// of that name.
    pub fn function_in_force(functions: &Vec<TemplateFunction>, name: &str) -> (r: Option<usize>)
        ensures
            match r {
                Some(k) => k < functions@.len() && functions@[k as int].name@ == name@
                    && in_force(function_views(functions@), name@) == Some(
                    functions@[k as int].plugin as int,
                ) && forall|l: int|
                    k < l < functions@.len() ==> (#[trigger] functions@[l]).name@ != name@,
                None => in_force(function_views(functions@), name@) is None && forall|l: int|
                    0 <= l < functions@.len() ==> (#[trigger] functions@[l]).name@ != name@,
            },
    {
        let ghost views = function_views(functions@);
        let mut k: usize = functions.len();
        assert(views.take(k as int) == views);
        while k > 0
            invariant
                k <= functions@.len(),
                views == function_views(functions@),
                in_force(views, name@) == in_force(views.take(k as int), name@),
                forall|l: int| k <= l < functions@.len() ==> (#[trigger] functions@[l]).name@ != name@,
            decreases k,
        {
            proof {
                assert(views.take(k as int).last() == views[k - 1]);
                assert(views.take(k as int).drop_last() == views.take(k - 1));
            }
            if same_text(functions[k - 1].name.as_str(), name) {
                return Some(k - 1);
            }
            k = k - 1;
        }
        None
    }

    /// Calls the template function `name` on behalf of the renderer: the
    /// arguments cross the boundary, the plugin that offers the function in
    /// force answers, and the answer crosses back. Without such a plugin
    /// there is no answer. What the plugin answers is the plugin's to say.
    pub fn call_template_function(&self, name: &str, args: &Vec<(String, Value)>) -> (r: Option<
        Result<Value, String>,
    >)
        requires
            self.wf(),
        ensures
            r is Some <==> in_force(offers(self.records()), name@) is Some,
            r matches Some(crossed) ==> exists|answer: Result<Value, String>|
                #[trigger] is_bridged(crossed, name@, answer),
            self.records().len() == 0 ==> r is None,
    {
        let functions = self.template_functions();
        match Self::function_in_force(&functions, name) {
            Some(k) => {
                let flat = flatten_arguments(args);
                let answer = self.plugin_at(functions[k].plugin).call_template_function(name, &flat);
                let crossed = bridge_answer(name, &answer);
                assert(is_bridged(crossed, name@, answer));
                Some(crossed)
            },
            None => None,
        }
    }
}

} // verus!
