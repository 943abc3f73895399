//! The word-count plugin: appends the number of words and the reading time
//! to every content, and offers both to templates.

use vstd::prelude::*;
use vstd::string::*;
use crate::models::value::{find, lookup, Number, Value};
use crate::plugins::error::{PluginError, PluginHook};
use crate::text::texts;
use crate::plugins::{resource_views, ContentType, Plugin, PluginContext, ResourceLocation};
use crate::text::{
    chars_of, count_where, count_words, decimal, decimal_string, same_text, word_count,
};

verus! {

/// The settings of the plugin.
#[derive(Clone, Copy, Debug, PartialEq, Eq, Structural)]
pub struct WordCountConfig {
    pub show_word_count: bool,
    pub show_read_time: bool,
    pub words_per_minute: u32,
}

impl Default for WordCountConfig {
    fn default() -> (r: WordCountConfig)
        ensures
            r == (WordCountConfig {
                show_word_count: true,
                show_read_time: true,
                words_per_minute: 200,
            }),
    {
        WordCountConfig { show_word_count: true, show_read_time: true, words_per_minute: 200 }
    }
}

/// Whether a character is a Chinese character: one of the CJK unified
/// ideographs or of their extensions A to G.
pub open spec fn chinese(c: char) -> bool {
    let code = c as u32;
    (0x4E00 <= code <= 0x9FFF) || (0x3400 <= code <= 0x4DBF) || (0x20000 <= code <= 0x2A6DF) || (
    0x2A700 <= code <= 0x2B73F) || (0x2B740 <= code <= 0x2B81F) || (0x2B820 <= code <= 0x2CEAF)
        || (0x2CEB0 <= code <= 0x2EBEF) || (0x30000 <= code <= 0x3134F)
}

/// Tells whether a character is a Chinese character.
pub fn is_chinese(c: char) -> (r: bool)
    ensures
        r == chinese(c),
{
    let code = c as u32;
    (0x4E00 <= code && code <= 0x9FFF) || (0x3400 <= code && code <= 0x4DBF) || (0x20000 <= code
        && code <= 0x2A6DF) || (0x2A700 <= code && code <= 0x2B73F) || (0x2B740 <= code && code
        <= 0x2B81F) || (0x2B820 <= code && code <= 0x2CEAF) || (0x2CEB0 <= code && code
        <= 0x2EBEF) || (0x30000 <= code && code <= 0x3134F)
}

/// The size of a text in words: its words, plus one for each Chinese
/// character.
pub open spec fn size_in_words(content: Seq<char>) -> nat {
    word_count(content) + count_where(content, |c: char| chinese(c))
}

/// The smaller of a number and the largest `usize`.
pub open spec fn capped(n: nat) -> usize {
    if n > usize::MAX {
        usize::MAX
    } else {
        n as usize
    }
}

/// The minutes it takes to read `words` words at `per_minute` words a
/// minute, rounded up.
pub open spec fn minutes_to_read(words: nat, per_minute: nat) -> nat
    recommends
        per_minute > 0,
{
    ((words + per_minute - 1) / (per_minute as int)) as nat
}

/// How a reading time is shown. Without a reading speed there is no time to
/// show: `inf` stands for any text that has words, `NaN` for an empty one.
pub open spec fn read_time_text(words: nat, per_minute: nat) -> Seq<char> {
    if per_minute > 0 {
        decimal(minutes_to_read(words, per_minute))
    } else if words > 0 {
        "inf"@
    } else {
        "NaN"@
    }
}

/// What is appended to a content: the word count and the reading time, each
/// where switched on, or nothing where both are switched off.
pub open spec fn info_html(config: WordCountConfig, words: nat) -> Seq<char> {
    if config.show_word_count || config.show_read_time {
        "\n\n<div class=\"word-count-info\">"@ + (if config.show_word_count {
            "<span class=\"word-count\">字数统计: "@ + decimal(words) + " 字</span>"@
        } else {
            Seq::empty()
        }) + (if config.show_read_time {
            (if config.show_word_count {
                " | "@
            } else {
                Seq::empty()
            }) + "<span class=\"reading-time\">阅读时间: "@ + read_time_text(
                words,
                config.words_per_minute as nat,
            ) + " 分钟</span>"@
        } else {
            Seq::empty()
        }) + "</div>"@
    } else {
        Seq::empty()
    }
}

/// Counts the Chinese characters of `s`.
pub fn count_chinese(s: &str) -> (n: usize)
    ensures
        n == count_where(s@, |c: char| chinese(c)),
{
    let v = chars_of(s);
    let mut n: usize = 0;
    let mut i: usize = 0;
    while i < v.len()
        invariant
            i <= v@.len(),
            n <= i,
            n == count_where(v@.take(i as int), |c: char| chinese(c)),
        decreases v.len() - i,
    {
        proof {
            assert(v@.take(i + 1).drop_last() == v@.take(i as int));
            assert(v@.take(i + 1).last() == v@[i as int]);
        }
        if is_chinese(v[i]) {
            n = n + 1;
        }
        i = i + 1;
    }
    assert(v@.take(i as int) == v@);
    n
}

/// The reading time in minutes, rounded up.
pub fn minutes(words: usize, per_minute: u32) -> (r: u64)
    requires
        per_minute > 0,
    ensures
        r == minutes_to_read(words as nat, per_minute as nat),
{
    let full = (words as u64) / (per_minute as u64);
    let rest = (words as u64) % (per_minute as u64);
    proof {
        let w = words as int;
        let p = per_minute as int;
        assert((w + p - 1) / p == w / p + if w % p == 0 {
            0int
        } else {
            1int
        }) by (nonlinear_arith)
            requires
                p > 0,
                w >= 0,
        ;
    }
    if rest == 0 {
        full
    } else {
        assert(full < u64::MAX) by (nonlinear_arith)
            requires
                full == (words as u64) / (per_minute as u64),
                rest == (words as u64) % (per_minute as u64),
                rest != 0,
                per_minute > 0,
        ;
        full + 1
    }
}

/// The word-count plugin.
#[derive(Clone, Debug)]
pub struct WordCountPlugin {
    name: String,
    version: String,
    description: String,
    author: String,
    config: WordCountConfig,
}

impl WordCountPlugin {
    /// The settings in use.
    pub closed spec fn settings(&self) -> WordCountConfig {
        self.config
    }

    /// A plugin that shows word count and reading time, at 200 words a
    /// minute.
    pub fn new() -> (r: Self)
        ensures
            r.written_by() == "Rust-Hexo Team"@,
            r.reported_name() == "word-count"@,
            r.reported_version() == "0.1.0"@,
            r.reported_description() == "文章字数统计插件"@,
            r.settings() == (WordCountConfig {
                show_word_count: true,
                show_read_time: true,
                words_per_minute: 200,
            }),
    {
        WordCountPlugin {
            name: "word-count".to_string(),
            version: "0.1.0".to_string(),
            description: "文章字数统计插件".to_string(),
            author: "Rust-Hexo Team".to_string(),
            config: WordCountConfig::default(),
        }
    }

    /// A plugin with the given settings.
    pub fn with_config(config: WordCountConfig) -> (r: Self)
        ensures
            r.written_by() == "Rust-Hexo Team"@,
            r.reported_name() == "word-count"@,
            r.reported_version() == "0.1.0"@,
            r.reported_description() == "文章字数统计插件"@,
            r.settings() == config,
    {
        WordCountPlugin {
            name: "word-count".to_string(),
            version: "0.1.0".to_string(),
            description: "文章字数统计插件".to_string(),
            author: "Rust-Hexo Team".to_string(),
            config,
        }
    }

    /// Who wrote the plugin.
    pub closed spec fn written_by(&self) -> Seq<char> {
        self.author@
    }

    /// Who wrote the plugin.
    pub fn author(&self) -> (r: &str)
        ensures
            r@ == self.written_by(),
    {
        self.author.as_str()
    }

    /// The size of a text in words.
    pub fn count_words(&self, content: &str) -> (n: usize)
        ensures
            n == capped(size_in_words(content@)),
    {
        let words = count_words(content);
        let ideographs = count_chinese(content);
        let total: u128 = words as u128 + ideographs as u128;
        if total > usize::MAX as u128 {
            usize::MAX
        } else {
            total as usize
        }
    }

    /// Writes what is appended to a content of `words` words.
    pub fn info(&self, words: usize) -> (r: String)
        ensures
            r@ == info_html(self.settings(), words as nat),
    {
        let mut out = String::new();
        if self.config.show_word_count || self.config.show_read_time {
            out.append("\n\n<div class=\"word-count-info\">");
            if self.config.show_word_count {
                out.append("<span class=\"word-count\">字数统计: ");
                let digits = decimal_string(words as u64);
                out.append(digits.as_str());
                out.append(" 字</span>");
            }
            if self.config.show_read_time {
                if self.config.show_word_count {
                    out.append(" | ");
                }
                out.append("<span class=\"reading-time\">阅读时间: ");
                if self.config.words_per_minute > 0 {
                    let digits = decimal_string(minutes(words, self.config.words_per_minute));
                    out.append(digits.as_str());
                } else if words > 0 {
                    out.append("inf");
                } else {
                    out.append("NaN");
                }
                out.append(" 分钟</span>");
            }
            out.append("</div>");
        }
        assert(out@ =~= info_html(self.settings(), words as nat));
        out
    }
}

/// The text bound to `content` among the arguments of a template function,
/// or the reason why there is none.
pub fn content_argument(args: &Vec<(String, Value)>) -> (r: Result<String, String>)
    ensures
        match r {
            Ok(text) => lookup(args@, "content"@) matches Some(Value::String(s)) && s@ == text@,
            Err(reason) => match lookup(args@, "content"@) {
                Some(Value::String(_)) => false,
                Some(_) => reason@ == "无法将content转换为字符串"@,
                None => reason@ == "缺少必要的参数: content"@,
            },
        },
{
    match find(args, "content") {
        Some(Value::String(s)) => Ok(s.clone()),
        Some(_) => Err("无法将content转换为字符串".to_string()),
        None => Err("缺少必要的参数: content".to_string()),
    }
}

/// A count as a number for templates: a signed integer where it fits.
pub open spec fn number_value(n: u64) -> Value {
    if n <= i64::MAX as u64 {
        Value::Number(Number::Integer(n as i64))
    } else {
        Value::Number(Number::Unsigned(n))
    }
}

/// A count as a number for templates.
pub fn count_value(n: u64) -> (r: Value)
    ensures
        r == number_value(n),
{
    if n <= i64::MAX as u64 {
        Value::Number(Number::Integer(n as i64))
    } else {
        Value::Number(Number::Unsigned(n))
    }
}

/// The reading time that templates are told: the minutes rounded up and at
/// least one; without a reading speed, the largest number for a text that
/// has words and zero for an empty one.
pub open spec fn told_minutes(words: nat, per_minute: nat) -> u64 {
    if per_minute > 0 {
        if minutes_to_read(words, per_minute) < 1 {
            1
        } else {
            minutes_to_read(words, per_minute) as u64
        }
    } else if words > 0 {
        i64::MAX as u64
    } else {
        0
    }
}

/// What the plugin answers to a call of the template function `name`: the
/// size of the argument `content` for `word_count`, its reading time for
/// `reading_time`, the reason where the argument is missing or no text, and
/// the name itself as the reason for any other name.
pub open spec fn template_answer(config: WordCountConfig, name: Seq<char>, args: Seq<(String, Value)>) -> Result<
    Value,
    Seq<char>,
> {
    if name == "word_count"@ || name == "reading_time"@ {
        match lookup(args, "content"@) {
            Some(Value::String(s)) => {
                let words = capped(size_in_words(s@));
                if name == "word_count"@ {
                    Ok(number_value(words as u64))
                } else {
                    Ok(number_value(told_minutes(words as nat, config.words_per_minute as nat)))
                }
            },
            Some(_) => Err("无法将content转换为字符串"@),
            None => Err("缺少必要的参数: content"@),
        }
    } else {
        Err(name)
    }
}

impl Plugin for WordCountPlugin {
    open spec fn transformed(&self, content: Seq<char>, content_type: ContentType) -> Option<
        Seq<char>,
    > {
        Some(content + info_html(self.settings(), capped(size_in_words(content)) as nat))
    }

    closed spec fn reported_name(&self) -> Seq<char> {
        self.name@
    }

    closed spec fn reported_version(&self) -> Seq<char> {
        self.version@
    }

    closed spec fn reported_description(&self) -> Seq<char> {
        self.description@
    }

    /// The plugin has no assets of its own to inject.
    open spec fn offered_resources(&self) -> Seq<(Seq<char>, ResourceLocation)> {
        Seq::empty()
    }

    /// The plugin offers `word_count` and `reading_time`.
    open spec fn offered_functions(&self) -> Seq<Seq<char>> {
        seq!["word_count"@, "reading_time"@]
    }

    /// The plugin succeeds at every checkpoint.
    open spec fn hook_answer(&self, hook: PluginHook) -> Option<Seq<char>> {
        None
    }

    /// The plugin holds nothing that could fail to be released.
    open spec fn cleanup_answer(&self) -> Option<Seq<char>> {
        None
    }

    fn name(&self) -> (r: &str) {
        self.name.as_str()
    }

    fn version(&self) -> (r: &str) {
        self.version.as_str()
    }

    fn description(&self) -> (r: &str) {
        self.description.as_str()
    }

    fn init(&mut self, context: &PluginContext) -> (r: Result<(), PluginError>)
        ensures
            r is Ok,
            *final(self) == *old(self),
    {
        Ok(())
    }

    fn execute_hook(&self, hook: &PluginHook) -> (r: Result<(), PluginError>)
        ensures
            r is Ok,
    {
        Ok(())
    }

    fn process_content(&self, content: &str, content_type: ContentType) -> (r: Result<
        String,
        PluginError,
    >) {
        let words = self.count_words(content);
        let mut out = content.to_string();
        let info = self.info(words);
        out.append(info.as_str());
        Ok(out)
    }

    fn get_resources(&self) -> (r: Vec<(String, ResourceLocation)>)
        ensures
            r@.len() == 0,
    {
        let none: Vec<(String, ResourceLocation)> = Vec::new();
        assert(resource_views(none@) =~= Seq::empty());
        none
    }

    /// The plugin offers `word_count` and `reading_time`.
    fn get_template_functions(&self) -> (r: Vec<String>)
        ensures
            r@.len() == 2,
            r@[0]@ == "word_count"@,
            r@[1]@ == "reading_time"@,
    {
        let mut names: Vec<String> = Vec::new();
        names.push("word_count".to_string());
        names.push("reading_time".to_string());
        assert(texts(names@) =~= seq!["word_count"@, "reading_time"@]);
        names
    }

    /// `word_count` yields the size of the argument `content` in words;
    /// `reading_time` yields the minutes it takes to read it, at least one.
    fn call_template_function(&self, name: &str, args: &Vec<(String, Value)>) -> (r: Result<
        Value,
        String,
    >)
        ensures
            match template_answer(self.settings(), name@, args@) {
                Ok(value) => r matches Ok(out) && out == value,
                Err(reason) => r matches Err(e) && e@ == reason,
            },
    {
        proof {
            reveal_strlit("word_count");
            reveal_strlit("reading_time");
        }
        if same_text(name, "word_count") {
            let content = content_argument(args)?;
            Ok(count_value(self.count_words(content.as_str()) as u64))
        } else if same_text(name, "reading_time") {
            let content = content_argument(args)?;
            let words = self.count_words(content.as_str());
            if self.config.words_per_minute > 0 {
                let time = minutes(words, self.config.words_per_minute);
                if time < 1 {
                    Ok(count_value(1))
                } else {
                    Ok(count_value(time))
                }
            } else if words > 0 {
                Ok(count_value(i64::MAX as u64))
            } else {
                Ok(count_value(0))
            }
        } else {
            Err(name.to_string())
        }
    }

    fn cleanup(&self) -> (r: Result<(), PluginError>)
        ensures
            r is Ok,
    {
        Ok(())
    }
}

} // verus!
