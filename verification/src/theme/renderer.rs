//! The functions and filters that the renderer offers to templates.
//!
//! The template engine itself lives outside this crate; here is what its
//! functions compute, over the values that templates hand in.

use vstd::prelude::*;
use vstd::string::*;
use crate::models::value::{find, lookup, Number, Value};
use crate::plugins::word_count::{count_value, number_value};
use crate::plugins::{resource_views, Plugin, PluginRecord, ResourceLocation};
use crate::plugins::manager::PluginManager;
use crate::text::{
    chars_of, contains_text, count_where, count_words, occurs, replace_all, replace_text,
    word_count,
};
use crate::utils::markdown::{markdown_html, to_html, MarkdownOptions};
use crate::utils::time::{
    format_instant, formatted_instant, naive_instant, parse_naive, parse_rfc3339,
    rfc3339_instant, ZonedInstant,
};

verus! {

/// The format under which dates are written where a template names none.
pub open spec fn default_date_format() -> Seq<char> {
    "%Y-%m-%d"@
}

/// The format that the arguments of a filter or function name: the text
/// bound to `format`, else the default.
pub open spec fn named_format(args: Seq<(String, Value)>) -> Seq<char> {
    match lookup(args, "format"@) {
        Some(Value::String(s)) => s@,
        _ => default_date_format(),
    }
}

/// What the filter `date_format` makes of a value: a text in the format of
/// RFC 3339 is written anew under the named format; anything else, and a
/// date that cannot be written, stays as it is.
pub open spec fn date_filtered(value: Value, args: Seq<(String, Value)>) -> Option<Seq<char>> {
    match value {
        Value::String(s) => match rfc3339_instant(s@) {
            Some(t) => formatted_instant(t.0, t.1, t.2, named_format(args)),
            None => None,
        },
        _ => None,
    }
}

fn format_argument(args: &Vec<(String, Value)>) -> (r: String)
    ensures
        r@ == named_format(args@),
{
    match find(args, "format") {
        Some(Value::String(s)) => s.clone(),
        _ => "%Y-%m-%d".to_string(),
    }
}

/// The filter `date_format`.
pub fn date_format_filter(value: &Value, args: &Vec<(String, Value)>) -> (r: Result<Value, String>)
    ensures
        match date_filtered(*value, args@) {
            Some(text) => r matches Ok(Value::String(s)) && s@ == text,
            None => r matches Ok(same) && value.alike(same),
        },
{
    match value {
        Value::String(s) => match parse_rfc3339(s.as_str()) {
            Some(t) => {
                let format = format_argument(args);
                match format_instant(&t, format.as_str()) {
                    Some(text) => Ok(Value::String(text)),
                    None => Ok(Value::String(s.clone())),
                }
            },
            None => Ok(Value::String(s.clone())),
        },
        _ => Ok(value.duplicate()),
    }
}

/// The extensions under which the filter `markdown` renders.
pub open spec fn filter_options() -> MarkdownOptions {
    MarkdownOptions {
        tables: true,
        footnotes: true,
        strikethrough: true,
        tasklists: true,
        heading_attributes: true,
        smart_punctuation: true,
    }
}

/// What the filter `markdown` makes of a text: the text rendered as HTML,
/// every code block marked for highlighting.
pub open spec fn markdown_filtered(text: Seq<char>) -> Seq<char> {
    let html = markdown_html(text, filter_options());
    if occurs(html, "<pre><code"@) {
        replace_all(html, "<pre><code"@, "<pre><code class=\"hljs\""@)
    } else {
        html
    }
}

/// The filter `markdown`, on a text.
pub fn render_markdown(text: &str) -> (r: String)
    ensures
        r@ == markdown_filtered(text@),
{
    let options = MarkdownOptions {
        tables: true,
        footnotes: true,
        strikethrough: true,
        tasklists: true,
        heading_attributes: true,
        smart_punctuation: true,
    };
    let html = to_html(text, options);
    if contains_text(html.as_str(), "<pre><code") {
        replace_text(html.as_str(), "<pre><code", "<pre><code class=\"hljs\"")
    } else {
        html
    }
}

/// The filter `markdown`: a text is rendered, anything else stays as it is.
pub fn markdown_filter(value: &Value, args: &Vec<(String, Value)>) -> (r: Result<Value, String>)
    ensures
        match *value {
            Value::String(s) => r matches Ok(Value::String(out)) && out@ == markdown_filtered(s@),
            _ => r matches Ok(same) && value.alike(same),
        },
{
    match value {
        Value::String(s) => Ok(Value::String(render_markdown(s.as_str()))),
        _ => Ok(value.duplicate()),
    }
}

/// The function `url_for`: every address is the root.
pub fn url_for_function(args: &Vec<(String, Value)>) -> (r: Result<Value, String>)
    ensures
        r matches Ok(Value::String(s)) && s@ == "/"@,
{
    Ok(Value::String("/".to_string()))
}

/// Whether a character is one of the common Chinese characters: a CJK
/// unified ideograph, one of extension A, or a compatibility ideograph.
pub open spec fn common_chinese(c: char) -> bool {
    let code = c as u32;
    (0x4E00 <= code <= 0x9FFF) || (0x3400 <= code <= 0x4DBF) || (0xF900 <= code <= 0xFAFF)
}

fn is_common_chinese(c: char) -> (r: bool)
    ensures
        r == common_chinese(c),
{
    let code = c as u32;
    (0x4E00 <= code && code <= 0x9FFF) || (0x3400 <= code && code <= 0x4DBF) || (0xF900 <= code
        && code <= 0xFAFF)
}

/// The size of a text for the renderer: its words, plus one for each common
/// Chinese character.
pub open spec fn text_size(content: Seq<char>) -> nat {
    word_count(content) + count_where(content, |c: char| common_chinese(c))
}

/// The size of a text as far as it can be counted: the largest number
/// stands for every size above it.
pub open spec fn capped_size(content: Seq<char>) -> u64 {
    if text_size(content) > u64::MAX {
        u64::MAX
    } else {
        text_size(content) as u64
    }
}

/// Computes the size of a text for the renderer.
pub fn measure(content: &str) -> (n: u64)
    ensures
        n == capped_size(content@),
{
    let words = count_words(content);
    let v = chars_of(content);
    let mut ideographs: usize = 0;
    let mut i: usize = 0;
    while i < v.len()
        invariant
            i <= v@.len(),
            ideographs <= i,
            ideographs == count_where(v@.take(i as int), |c: char| common_chinese(c)),
        decreases v.len() - i,
    {
        proof {
            assert(v@.take(i + 1).drop_last() == v@.take(i as int));
            assert(v@.take(i + 1).last() == v@[i as int]);
        }
        if is_common_chinese(v[i]) {
            ideographs = ideographs + 1;
        }
        i = i + 1;
    }
    assert(v@.take(i as int) == v@);
    let total: u128 = words as u128 + ideographs as u128;
    if total > u64::MAX as u128 {
        u64::MAX
    } else {
        total as u64
    }
}

/// The text bound to `content`, or the reason why there is none.
pub fn content_of(args: &Vec<(String, Value)>) -> (r: Result<String, String>)
    ensures
        match r {
            Ok(text) => lookup(args@, "content"@) matches Some(Value::String(s)) && s@ == text@,
            Err(reason) => match lookup(args@, "content"@) {
                Some(Value::String(_)) => false,
                Some(_) => reason@ == "无法将content转换为字符串"@,
                None => reason@ == "缺少必要的参数: content"@,
            },
        },
{
    crate::plugins::word_count::content_argument(args)
}

/// What a function of the argument `content` answers: `count` of the text,
/// or the reason where the argument is missing or no text.
pub open spec fn content_answer(args: Seq<(String, Value)>, count: spec_fn(Seq<char>) -> u64) -> Result<
    Value,
    Seq<char>,
> {
    match lookup(args, "content"@) {
        Some(Value::String(s)) => Ok(number_value(count(s@))),
        Some(_) => Err("无法将content转换为字符串"@),
        None => Err("缺少必要的参数: content"@),
    }
}

/// The function `word_count`: the size of the argument `content`.
pub fn word_count_function(args: &Vec<(String, Value)>) -> (r: Result<Value, String>)
    ensures
        match content_answer(args@, |s: Seq<char>| capped_size(s)) {
            Ok(value) => r matches Ok(out) && out == value,
            Err(reason) => r matches Err(e) && e@ == reason,
        },
{
    let content = content_of(args)?;
    Ok(count_value(measure(content.as_str())))
}

/// The minutes it takes to read a text of the given size at 200 words a
/// minute, rounded up, and at least one.
pub open spec fn reading_minutes(size: u64) -> u64 {
    let full = size / 200 + if size % 200 == 0 {
        0int
    } else {
        1int
    };
    if full < 1 {
        1
    } else {
        full as u64
    }
}

/// The function `reading_time`: the minutes it takes to read the argument
/// `content` at 200 words a minute, rounded up, and at least one.
pub fn reading_time_function(args: &Vec<(String, Value)>) -> (r: Result<Value, String>)
    ensures
        match content_answer(args@, |s: Seq<char>| reading_minutes(capped_size(s))) {
            Ok(value) => r matches Ok(out) && out == value,
            Err(reason) => r matches Err(e) && e@ == reason,
        },
{
    let content = content_of(args)?;
    let size = measure(content.as_str());
    let time = size / 200 + if size % 200 == 0 {
        0
    } else {
        1
    };
    if time < 1 {
        Ok(count_value(1))
    } else {
        Ok(count_value(time))
    }
}

/// The formats under which the function `date` reads a text that is not in
/// the format of RFC 3339, in the order in which they are tried.
pub open spec fn date_formats() -> Seq<Seq<char>> {
    seq!["%Y-%m-%d %H:%M:%S"@, "%Y-%m-%d"@, "%Y/%m/%d %H:%M:%S"@, "%Y/%m/%d"@]
}

/// What the known formats make of a text, tried from format `k` on: the
/// first reading that can be written under `format`.
pub open spec fn naive_written(text: Seq<char>, format: Seq<char>, k: int) -> Option<Seq<char>>
    decreases 4 - k,
{
    if k < 0 || k >= 4 {
        None
    } else {
        match naive_instant(text, date_formats()[k]) {
            Some(t) => match formatted_instant(t.0, t.1, 0, format) {
                Some(out) => Some(out),
                None => naive_written(text, format, k + 1),
            },
            None => naive_written(text, format, k + 1),
        }
    }
}

/// What the function `date` makes of a text: the text read in the format of
/// RFC 3339 and written under `format`, else its first reading under the
/// known formats, else the text itself.
pub open spec fn text_date(text: Seq<char>, format: Seq<char>) -> Seq<char> {
    let direct = match rfc3339_instant(text) {
        Some(t) => formatted_instant(t.0, t.1, t.2, format),
        None => None,
    };
    match direct {
        Some(out) => out,
        None => match naive_written(text, format, 0) {
            Some(out) => out,
            None => text,
        },
    }
}

/// Writes the date that a text stands for under `format`.
pub fn write_text_date(text: &str, format: &str) -> (r: String)
    ensures
        r@ == text_date(text@, format@),
{
    match parse_rfc3339(text) {
        Some(t) => match format_instant(&t, format) {
            Some(out) => {
                return out;
            },
            None => {},
        },
        None => {},
    }
    let formats = ["%Y-%m-%d %H:%M:%S", "%Y-%m-%d", "%Y/%m/%d %H:%M:%S", "%Y/%m/%d"];
    let mut k: usize = 0;
    while k < 4
        invariant
            k <= 4,
            formats@.len() == 4,
            forall|j: int| 0 <= j < 4 ==> (#[trigger] formats@[j])@ == date_formats()[j],
            naive_written(text@, format@, 0) == naive_written(text@, format@, k as int),
            (match rfc3339_instant(text@) {
                Some(t) => formatted_instant(t.0, t.1, t.2, format@),
                None => None,
            }) is None,
        decreases 4 - k,
    {
        match parse_naive(text, formats[k]) {
            Some(t) => {
                let instant = ZonedInstant { seconds: t.0, nanos: t.1, offset: 0 };
                match format_instant(&instant, format) {
                    Some(out) => {
                        return out;
                    },
                    None => {},
                }
            },
            None => {},
        }
        k = k + 1;
    }
    text.to_string()
}

/// What the function `date` makes of its arguments.
pub open spec fn date_written(args: Seq<(String, Value)>) -> Result<Seq<char>, Seq<char>> {
    match lookup(args, "value"@) {
        None => Err("缺少必要的参数: value"@),
        Some(value) => match lookup(args, "format"@) {
            Some(Value::String(_)) | None => match value {
                Value::String(text) => Ok(text_date(text@, named_format(args))),
                Value::Number(Number::Integer(seconds)) => match formatted_instant(
                    seconds as int,
                    0,
                    0,
                    named_format(args),
                ) {
                    Some(out) => Ok(out),
                    None => Err("无法将value解析为日期时间"@),
                },
                _ => Err("无法将value解析为日期时间"@),
            },
            Some(_) => Err("format 必须是字符串"@),
        },
    }
}

/// The function `date`: writes the argument `value` under the argument
/// `format`, or under `%Y-%m-%d` where none is given.
///
/// A text is read in the format of RFC 3339, else as date and time in one of
/// the known formats; a text that is none of these is handed back as it is.
/// A whole number is read as seconds since the epoch.
pub fn date_function(args: &Vec<(String, Value)>) -> (r: Result<Value, String>)
    ensures
        match date_written(args@) {
            Ok(text) => r matches Ok(Value::String(s)) && s@ == text,
            Err(reason) => r matches Err(e) && e@ == reason,
        },
{
    let value = match find(args, "value") {
        Some(v) => v,
        None => {
            return Err("缺少必要的参数: value".to_string());
        },
    };
    let format = match find(args, "format") {
        Some(Value::String(s)) => s.clone(),
        Some(_) => {
            return Err("format 必须是字符串".to_string());
        },
        None => "%Y-%m-%d".to_string(),
    };
    match value {
        Value::String(text) => Ok(Value::String(write_text_date(text.as_str(), format.as_str()))),
        Value::Number(Number::Integer(seconds)) => {
            let instant = ZonedInstant { seconds: *seconds, nanos: 0, offset: 0 };
            match format_instant(&instant, format.as_str()) {
                Some(out) => Ok(Value::String(out)),
                None => Err("无法将value解析为日期时间".to_string()),
            }
        },
        _ => Err("无法将value解析为日期时间".to_string()),
    }
}

/// What the function `default` yields: the default where the value is null
/// or an empty text, else the value.
pub open spec fn takes_default(value: Value) -> bool {
    match value {
        Value::Null => true,
        Value::String(s) => s@.len() == 0,
        _ => false,
    }
}

/// The function `default`: the argument `default` where the argument `value`
/// is null or an empty text, else `value`.
pub fn default_function<'a>(args: &'a Vec<(String, Value)>) -> (r: Result<&'a Value, String>)
    ensures
        match (lookup(args@, "value"@), lookup(args@, "default"@)) {
            (None, _) => r matches Err(e) && e@ == "缺少必要的参数: value"@,
            (Some(_), None) => r matches Err(e) && e@ == "缺少必要的参数: default"@,
            (Some(value), Some(fallback)) => r matches Ok(out) && *out == if takes_default(value) {
                fallback
            } else {
                value
            },
        },
{
    let value = match find(args, "value") {
        Some(v) => v,
        None => {
            return Err("缺少必要的参数: value".to_string());
        },
    };
    let fallback = match find(args, "default") {
        Some(v) => v,
        None => {
            return Err("缺少必要的参数: default".to_string());
        },
    };
    let empty = match value {
        Value::Null => true,
        Value::String(s) => s.as_str().is_empty(),
        _ => false,
    };
    if empty {
        Ok(fallback)
    } else {
        Ok(value)
    }
}

/// The assets that plugins want injected, sorted by place.
#[derive(Clone, Debug)]
pub struct PluginResources {
    pub head: Vec<(String, ResourceLocation)>,
    pub footer: Vec<(String, ResourceLocation)>,
}

/// The assets of `all` that go to `place`, in their order.
pub open spec fn placed<T>(all: Seq<(T, ResourceLocation)>, place: ResourceLocation) -> Seq<
    (T, ResourceLocation),
>
    decreases all.len(),
{
    if all.len() == 0 {
        Seq::empty()
    } else if all.last().1 == place {
        placed(all.drop_last(), place).push(all.last())
    } else {
        placed(all.drop_last(), place)
    }
}

/// Sorts assets by place; within a place they keep their order.
pub fn sort_by_place(resources: Vec<(String, ResourceLocation)>) -> (r: PluginResources)
    ensures
        r.head@ == placed(resources@, ResourceLocation::Head),
        r.footer@ == placed(resources@, ResourceLocation::Footer),
{
    let ghost all = resources@;
    let mut rest = resources;
    let mut head: Vec<(String, ResourceLocation)> = Vec::new();
    let mut footer: Vec<(String, ResourceLocation)> = Vec::new();
    let ghost mut done: int = 0;
    while rest.len() > 0
        invariant
            0 <= done <= all.len(),
            rest@ == all.skip(done),
            head@ == placed(all.take(done), ResourceLocation::Head),
            footer@ == placed(all.take(done), ResourceLocation::Footer),
        decreases rest@.len(),
    {
        let resource = rest.remove(0);
        proof {
            assert(resource == all[done]);
            assert(all.take(done + 1).drop_last() == all.take(done));
            assert(all.take(done + 1).last() == all[done]);
            assert(rest@ == all.skip(done + 1));
        }
        match resource.1 {
            ResourceLocation::Head => head.push(resource),
            ResourceLocation::Footer => footer.push(resource),
        }
        proof {
            done = done + 1;
        }
    }
    assert(all.take(done) == all);
    PluginResources { head, footer }
}

/// The assets that the plugins of a registry want injected, plugin after
/// plugin in registration order.
pub open spec fn gathered<P: Plugin + ?Sized>(records: Seq<PluginRecord<P>>) -> Seq<
    (Seq<char>, ResourceLocation),
>
    decreases records.len(),
{
    if records.len() == 0 {
        Seq::empty()
    } else {
        gathered(records.drop_last()) + records.last().plugin().offered_resources()
    }
}

/// Sorting by place and reading the assets as plain values can be done in
/// either order.
pub proof fn lemma_placed_views(all: Seq<(String, ResourceLocation)>, place: ResourceLocation)
    ensures
        resource_views(placed(all, place)) == placed(resource_views(all), place),
    decreases all.len(),
{
    let views = resource_views(all);
    if all.len() == 0 {
        assert(resource_views(placed(all, place)) =~= placed(views, place));
    } else {
        lemma_placed_views(all.drop_last(), place);
        assert(views.drop_last() =~= resource_views(all.drop_last()));
        assert(views.last() == (all.last().0@, all.last().1));
        if all.last().1 == place {
            assert(resource_views(placed(all.drop_last(), place).push(all.last()))
                =~= resource_views(placed(all.drop_last(), place)).push(views.last()));
        }
    }
}

impl<P: Plugin + ?Sized> PluginManager<P> {
    /// Gathers the assets of all plugins, in registration order, and sorts
    /// them by place.
    pub fn plugin_resources(&self) -> (r: PluginResources)
        requires
            self.wf(),
        ensures
            resource_views(r.head@) == placed(gathered(self.records()), ResourceLocation::Head),
            resource_views(r.footer@) == placed(
                gathered(self.records()),
                ResourceLocation::Footer,
            ),
            forall|k: int|
                0 <= k < r.head@.len() ==> (#[trigger] r.head@[k]).1 == ResourceLocation::Head,
            forall|k: int|
                0 <= k < r.footer@.len() ==> (#[trigger] r.footer@[k]).1 == ResourceLocation::Footer,
            self.records().len() == 0 ==> r.head@.len() == 0 && r.footer@.len() == 0,
    {
        let mut all: Vec<(String, ResourceLocation)> = Vec::new();
        let n = self.len();
        let mut i: usize = 0;
        assert(resource_views(all@) =~= gathered(self.records().take(0)));
        while i < n
            invariant
                i <= n,
                n == self.records().len(),
                n == 0 ==> all@.len() == 0,
                resource_views(all@) == gathered(self.records().take(i as int)),
            decreases n - i,
        {
            let mut resources = self.plugin_at(i).get_resources();
            let ghost so_far = all@;
            let ghost more = resources@;
            all.append(&mut resources);
            proof {
                let done = self.records().take(i + 1);
                assert(all@ == so_far + more);
                assert(resource_views(all@) =~= resource_views(so_far) + resource_views(more));
                assert(done.drop_last() == self.records().take(i as int));
                assert(done.last() == self.records()[i as int]);
            }
            i = i + 1;
        }
        let ghost whole = all@;
        let sorted = sort_by_place(all);
        proof {
            assert(self.records().take(i as int) == self.records());
            lemma_placed(whole, ResourceLocation::Head);
            lemma_placed(whole, ResourceLocation::Footer);
            lemma_placed_views(whole, ResourceLocation::Head);
            lemma_placed_views(whole, ResourceLocation::Footer);
        }
        sorted
    }
}

/// Every asset among those that go to `place` is marked for `place`, and
/// there are no more of them than assets.
pub proof fn lemma_placed(all: Seq<(String, ResourceLocation)>, place: ResourceLocation)
    ensures
        placed(all, place).len() <= all.len(),
        forall|k: int| 0 <= k < placed(all, place).len() ==> (#[trigger] placed(all, place)[k]).1 == place,
    decreases all.len(),
{
    if all.len() > 0 {
        lemma_placed(all.drop_last(), place);
    }
}

} // verus!
