//! The table-of-contents plugin: lists the headings of a document and gives
//! them anchors.

use vstd::prelude::*;
use vstd::string::*;
use crate::models::value::Value;
use crate::plugins::error::{PluginError, PluginHook};
use crate::plugins::math::{matches_rewritten, rewrite_matches, Rewrite};
use crate::text::texts;
use crate::plugins::{resource_views, ContentType, Plugin, PluginContext, ResourceLocation};
use crate::text::{
    contains_text, decimal, decimal_string, lowercase_text, occurs, replace_all, replace_char,
    replace_char_in, replace_text, to_lowercase,
};

verus! {

/// The settings of the plugin.
#[derive(Clone, Debug)]
pub struct TocConfig {
    /// The deepest heading level that is listed.
    pub max_level: u8,
    /// Whether headings get anchors.
    pub add_anchor: bool,
    /// Whether the table is put into the document.
    pub auto_insert: bool,
    /// What marks the place of the table in the document.
    pub placeholder: String,
}

impl Default for TocConfig {
    fn default() -> (r: TocConfig)
        ensures
            r.max_level == 3,
            r.add_anchor,
            r.auto_insert,
            r.placeholder@ == "<!-- toc -->"@,
    {
        TocConfig {
            max_level: 3,
            add_anchor: true,
            auto_insert: true,
            placeholder: "<!-- toc -->".to_string(),
        }
    }
}

/// What a Markdown parser meets in a document, as far as the plugin cares.
#[derive(Clone, Debug)]
pub enum MarkdownEvent {
    /// A heading of the given level begins.
    HeadingStart(u8),
    /// A heading of the given level ends.
    HeadingEnd(u8),
    /// A run of text.
    Text(String),
    /// Anything else.
    Other,
}

impl MarkdownEvent {
    /// The kind of the event as a number, its level, and its text.
    pub open spec fn view(&self) -> (int, int, Seq<char>) {
        match self {
            MarkdownEvent::HeadingStart(level) => (0, *level as int, Seq::empty()),
            MarkdownEvent::HeadingEnd(level) => (1, *level as int, Seq::empty()),
            MarkdownEvent::Text(text) => (2, 0, text@),
            MarkdownEvent::Other => (3, 0, Seq::empty()),
        }
    }
}

/// The events that `pulldown_cmark` meets in a document, in order.
pub uninterp spec fn markdown_events(content: Seq<char>) -> Seq<(int, int, Seq<char>)>;

/// Calls `pulldown_cmark::Parser::new` and walks the events, each turned
/// into the event of this crate that stands for it. The events depend on the
/// document alone; the contract names them.
#[verifier::external_body]
pub(crate) fn parse_events(content: &str) -> (r: Vec<MarkdownEvent>)
    ensures
        r@.map_values(|e: MarkdownEvent| e.view()) == markdown_events(content@),
{
    pulldown_cmark::Parser::new(content).map(
        |event| match event {
            pulldown_cmark::Event::Start(pulldown_cmark::Tag::Heading(level, _, _)) => {
                MarkdownEvent::HeadingStart(level as u8)
            },
            pulldown_cmark::Event::End(pulldown_cmark::Tag::Heading(level, _, _)) => {
                MarkdownEvent::HeadingEnd(level as u8)
            },
            pulldown_cmark::Event::Text(text) => MarkdownEvent::Text(text.to_string()),
            _ => MarkdownEvent::Other,
        },
    ).collect()
}

/// The pattern of what an anchor does not keep: everything but letters,
/// digits, underscores, white space and hyphens.
pub open spec fn mark_pattern() -> Seq<char> {
    "[^\\w\\s-]"@
}

/// The anchor of a heading: its text without marks, with a hyphen for every
/// space, in lower case.
pub open spec fn anchor_of(text: Seq<char>) -> Seq<char> {
    lowercase_text(replace_char(matches_rewritten(mark_pattern(), text, (1, Seq::empty(), false)), ' ', '-'))
}

/// Computes the anchor of a heading.
pub fn slugify(text: &str) -> (r: String)
    ensures
        r@ == anchor_of(text@),
{
    let bare = rewrite_matches("[^\\w\\s-]", text, &Rewrite::Erase);
    let hyphened = replace_char_in(bare.as_str(), ' ', '-');
    to_lowercase(hyphened.as_str())
}

/// A heading of a document: its level and its text.
#[derive(Clone, Debug)]
pub struct Heading {
    pub level: u8,
    pub text: String,
}

/// The events of a list, as kinds, levels and texts.
pub open spec fn events_view(events: Seq<MarkdownEvent>) -> Seq<(int, int, Seq<char>)> {
    events.map_values(|e: MarkdownEvent| e.view())
}

/// The headings of a list, as levels and texts.
pub open spec fn headings_view(headings: Seq<Heading>) -> Seq<(int, Seq<char>)> {
    headings.map_values(|h: Heading| (h.level as int, h.text@))
}

/// The headings found after a list of events, and the level of the heading
/// that is open and still waits for its text, or zero. A heading deeper than
/// `max_level` opens nothing; the first run of text after the start of a
/// heading is its text.
pub open spec fn outline(events: Seq<(int, int, Seq<char>)>, max_level: int) -> (
    Seq<(int, Seq<char>)>,
    int,
)
    decreases events.len(),
{
    if events.len() == 0 {
        (Seq::empty(), 0)
    } else {
        let (found, open) = outline(events.drop_last(), max_level);
        let (kind, level, text) = events.last();
        if kind == 0 {
            if level <= max_level {
                (found, level)
            } else {
                (found, open)
            }
        } else if kind == 2 {
            if open > 0 && open <= max_level {
                (found.push((open, text)), 0)
            } else {
                (found, open)
            }
        } else {
            (found, open)
        }
    }
}

/// Finds the headings of a document down to `max_level`.
pub fn find_headings(events: &Vec<MarkdownEvent>, max_level: u8) -> (r: Vec<Heading>)
    ensures
        headings_view(r@) == outline(events_view(events@), max_level as int).0,
{
    let ghost all = events_view(events@);
    let mut found: Vec<Heading> = Vec::new();
    let mut open: u8 = 0;
    let mut i: usize = 0;
    assert(headings_view(found@) =~= outline(all.take(0), max_level as int).0);
    while i < events.len()
        invariant
            i <= events.len(),
            all == events_view(events@),
            (headings_view(found@), open as int) == outline(all.take(i as int), max_level as int),
        decreases events.len() - i,
    {
        proof {
            assert(all.take(i + 1).drop_last() == all.take(i as int));
            assert(all.take(i + 1).last() == events@[i as int].view());
        }
        match &events[i] {
            MarkdownEvent::HeadingStart(level) => {
                if *level <= max_level {
                    open = *level;
                }
            },
            MarkdownEvent::Text(text) => {
                if open > 0 && open <= max_level {
                    let ghost before = headings_view(found@);
                    found.push(Heading { level: open, text: text.clone() });
                    assert(headings_view(found@) =~= before.push((open as int, text@)));
                    open = 0;
                }
            },
            _ => {},
        }
        i = i + 1;
    }
    assert(all.take(i as int) == all);
    found
}

/// `n` times the text `unit`.
pub open spec fn repeated(unit: Seq<char>, n: nat) -> Seq<char>
    decreases n,
{
    if n == 0 {
        Seq::empty()
    } else {
        repeated(unit, (n - 1) as nat) + unit
    }
}

/// The entries of a table of contents after a list of headings, and the
/// depth of nesting at its end. Before each entry the nesting is brought to
/// the level of its heading.
pub open spec fn toc_entries(headings: Seq<(int, Seq<char>)>) -> (Seq<char>, int)
    decreases headings.len(),
{
    if headings.len() == 0 {
        (Seq::empty(), 1)
    } else {
        let (before, depth) = toc_entries(headings.drop_last());
        let (level, text) = headings.last();
        let nesting = if depth < level {
            repeated("<ul>\n"@, (level - depth) as nat)
        } else {
            repeated("</ul>\n"@, (depth - level) as nat)
        };
        (
            before + nesting + "<li><a href=\"#"@ + anchor_of(text) + "\">"@ + text
                + "</a></li>\n"@,
            level,
        )
    }
}

/// The table of contents of a list of headings.
pub open spec fn toc_html(headings: Seq<(int, Seq<char>)>) -> Seq<char> {
    let (entries, depth) = toc_entries(headings);
    "<div class=\"toc\">\n<ul>\n"@ + entries + (if depth > 1 {
        repeated("</ul>\n"@, (depth - 1) as nat)
    } else {
        Seq::empty()
    }) + "</ul>\n</div>"@
}

fn repeat(unit: &str, n: u8) -> (r: String)
    ensures
        r@ == repeated(unit@, n as nat),
{
    let mut out = String::new();
    let mut i: u8 = 0;
    while i < n
        invariant
            i <= n,
            out@ == repeated(unit@, i as nat),
        decreases n - i,
    {
        out.append(unit);
        i = i + 1;
    }
    out
}

/// Writes the table of contents of a list of headings.
pub fn write_toc(headings: &Vec<Heading>) -> (r: String)
    ensures
        r@ == toc_html(headings_view(headings@)),
{
    let ghost all = headings_view(headings@);
    let mut entries = String::new();
    let mut depth: u8 = 1;
    let mut i: usize = 0;
    while i < headings.len()
        invariant
            i <= headings.len(),
            all == headings_view(headings@),
            (entries@, depth as int) == toc_entries(all.take(i as int)),
        decreases headings.len() - i,
    {
        proof {
            assert(all.take(i + 1).drop_last() == all.take(i as int));
            assert(all.take(i + 1).last() == (
                headings@[i as int].level as int,
                headings@[i as int].text@,
            ));
        }
        let heading = &headings[i];
        let level = heading.level;
        let mut entry = if depth < level {
            repeat("<ul>\n", level - depth)
        } else {
            repeat("</ul>\n", depth - level)
        };
        entry.append("<li><a href=\"#");
        let anchor = slugify(heading.text.as_str());
        entry.append(anchor.as_str());
        entry.append("\">");
        entry.append(heading.text.as_str());
        entry.append("</a></li>\n");
        entries.append(entry.as_str());
        assert(entries@ =~= toc_entries(all.take(i + 1)).0);
        depth = level;
        i = i + 1;
    }
    assert(all.take(i as int) == all);
    let mut out = "<div class=\"toc\">\n<ul>\n".to_string();
    out.append(entries.as_str());
    if depth > 1 {
        let closing = repeat("</ul>\n", depth - 1);
        out.append(closing.as_str());
    }
    out.append("</ul>\n</div>");
    out
}

/// The headings of a document with anchors, after a list of events, and the
/// level of the heading that is open. Of a document only its headings and
/// its runs of text are kept: a heading opens with its level, its first run
/// of text brings the anchor and closes the opening tag, the end of a
/// heading is written with the level that is open then, and runs of text
/// outside headings stand as they are.
pub open spec fn anchored(events: Seq<(int, int, Seq<char>)>) -> (Seq<char>, int)
    decreases events.len(),
{
    if events.len() == 0 {
        (Seq::empty(), 0)
    } else {
        let (out, open) = anchored(events.drop_last());
        let (kind, level, text) = events.last();
        if kind == 0 {
            (out + "<h"@ + decimal(level as nat), level)
        } else if kind == 2 {
            if open > 0 {
                (out + " id=\""@ + anchor_of(text) + "\">"@ + text, 0)
            } else {
                (out + text, open)
            }
        } else if kind == 1 {
            (out + "</h"@ + decimal(open as nat) + ">"@, open)
        } else {
            (out, open)
        }
    }
}

/// Writes the headings of a document with anchors.
pub fn write_anchors(events: &Vec<MarkdownEvent>) -> (r: String)
    ensures
        r@ == anchored(events_view(events@)).0,
{
    let ghost all = events_view(events@);
    let mut out = String::new();
    let mut open: u8 = 0;
    let mut i: usize = 0;
    while i < events.len()
        invariant
            i <= events.len(),
            all == events_view(events@),
            (out@, open as int) == anchored(all.take(i as int)),
        decreases events.len() - i,
    {
        proof {
            assert(all.take(i + 1).drop_last() == all.take(i as int));
            assert(all.take(i + 1).last() == events@[i as int].view());
        }
        match &events[i] {
            MarkdownEvent::HeadingStart(level) => {
                open = *level;
                let mut piece = "<h".to_string();
                let digits = decimal_string(*level as u64);
                piece.append(digits.as_str());
                out.append(piece.as_str());
            },
            MarkdownEvent::Text(text) => {
                if open > 0 {
                    let mut piece = " id=\"".to_string();
                    let anchor = slugify(text.as_str());
                    piece.append(anchor.as_str());
                    piece.append("\">");
                    piece.append(text.as_str());
                    out.append(piece.as_str());
                    open = 0;
                } else {
                    out.append(text.as_str());
                }
            },
            MarkdownEvent::HeadingEnd(_) => {
                let mut piece = "</h".to_string();
                let digits = decimal_string(open as u64);
                piece.append(digits.as_str());
                piece.append(">");
                out.append(piece.as_str());
            },
            MarkdownEvent::Other => {},
        }
        assert(out@ =~= anchored(all.take(i + 1)).0);
        i = i + 1;
    }
    assert(all.take(i as int) == all);
    out
}

/// The document with its table of contents: in the place of every
/// placeholder, or before the document where it has none.
pub open spec fn with_toc(content: Seq<char>, placeholder: Seq<char>, toc: Seq<char>) -> Seq<char> {
    if occurs(content, placeholder) {
        replace_all(content, placeholder, toc)
    } else {
        toc + "\n\n"@ + content
    }
}

/// Puts a table of contents into a document.
pub fn insert_toc(content: &str, placeholder: &str, toc: &str) -> (r: String)
    ensures
        r@ == with_toc(content@, placeholder@, toc@),
{
    if contains_text(content, placeholder) {
        replace_text(content, placeholder, toc)
    } else {
        let mut out = toc.to_string();
        out.append("\n\n");
        out.append(content);
        out
    }
}

/// The table of contents of a document.
pub open spec fn toc_of(content: Seq<char>, max_level: u8) -> Seq<char> {
    toc_html(outline(markdown_events(content), max_level as int).0)
}

/// What the plugin makes of a document: the table of contents goes in where
/// that is switched on, and then, where anchors are switched on, only the
/// headings and runs of text of the outcome are kept, the headings with
/// anchors.
pub open spec fn toc_processed(config: TocConfig, content: Seq<char>) -> Seq<char> {
    let inserted = if config.auto_insert {
        with_toc(content, config.placeholder@, toc_of(content, config.max_level))
    } else {
        content
    };
    if config.add_anchor {
        anchored(markdown_events(inserted)).0
    } else {
        inserted
    }
}

/// The table-of-contents plugin.
#[derive(Clone, Debug)]
pub struct TocPlugin {
    name: String,
    version: String,
    description: String,
    author: String,
    config: TocConfig,
}

impl TocPlugin {
    /// The settings in use.
    pub closed spec fn settings(&self) -> TocConfig {
        self.config
    }

    /// A plugin that lists headings down to level three, puts the table
    /// into the document and gives headings anchors.
    pub fn new() -> (r: Self)
        ensures
            r.written_by() == "Rust-Hexo Team"@,
            r.reported_name() == "toc"@,
            r.reported_version() == "0.1.0"@,
            r.reported_description() == "自动生成文章目录"@,
            r.settings().max_level == 3,
            r.settings().add_anchor,
            r.settings().auto_insert,
            r.settings().placeholder@ == "<!-- toc -->"@,
    {
        TocPlugin {
            name: "toc".to_string(),
            version: "0.1.0".to_string(),
            description: "自动生成文章目录".to_string(),
            author: "Rust-Hexo Team".to_string(),
            config: TocConfig::default(),
        }
    }

    /// A plugin with the given settings.
    pub fn with_config(config: TocConfig) -> (r: Self)
        ensures
            r.written_by() == "Rust-Hexo Team"@,
            r.reported_name() == "toc"@,
            r.reported_version() == "0.1.0"@,
            r.reported_description() == "自动生成文章目录"@,
            r.settings() == config,
    {
        TocPlugin {
            name: "toc".to_string(),
            version: "0.1.0".to_string(),
            description: "自动生成文章目录".to_string(),
            author: "Rust-Hexo Team".to_string(),
            config,
        }
    }

    /// Who wrote the plugin.
    pub closed spec fn written_by(&self) -> Seq<char> {
        self.author@
    }

    /// Who wrote the plugin.
    pub fn author(&self) -> (r: &str)
        ensures
            r@ == self.written_by(),
    {
        self.author.as_str()
    }

    /// The table of contents of a document.
    pub fn generate_toc(&self, content: &str) -> (r: String)
        ensures
            r@ == toc_of(content@, self.settings().max_level),
    {
        let events = parse_events(content);
        let headings = find_headings(&events, self.config.max_level);
        write_toc(&headings)
    }

    /// The headings and runs of text of a document, the headings with
    /// anchors.
    pub fn add_anchors(&self, content: &str) -> (r: String)
        ensures
            r@ == anchored(markdown_events(content@)).0,
    {
        let events = parse_events(content);
        write_anchors(&events)
    }

    /// Works a document over.
    pub fn process(&self, content: &str) -> (r: String)
        ensures
            r@ == toc_processed(self.settings(), content@),
    {
        let toc = self.generate_toc(content);
        let inserted = if self.config.auto_insert {
            insert_toc(content, self.config.placeholder.as_str(), toc.as_str())
        } else {
            content.to_string()
        };
        if self.config.add_anchor {
            self.add_anchors(inserted.as_str())
        } else {
            inserted
        }
    }
}

impl Plugin for TocPlugin {
    open spec fn transformed(&self, content: Seq<char>, content_type: ContentType) -> Option<
        Seq<char>,
    > {
        Some(toc_processed(self.settings(), content))
    }

    closed spec fn reported_name(&self) -> Seq<char> {
        self.name@
    }

    closed spec fn reported_version(&self) -> Seq<char> {
        self.version@
    }

    closed spec fn reported_description(&self) -> Seq<char> {
        self.description@
    }

    /// The plugin has no assets of its own to inject.
    open spec fn offered_resources(&self) -> Seq<(Seq<char>, ResourceLocation)> {
        Seq::empty()
    }

    /// The plugin offers no template function.
    open spec fn offered_functions(&self) -> Seq<Seq<char>> {
        Seq::empty()
    }

    /// The plugin succeeds at every checkpoint.
    open spec fn hook_answer(&self, hook: PluginHook) -> Option<Seq<char>> {
        None
    }

    /// The plugin holds nothing that could fail to be released.
    open spec fn cleanup_answer(&self) -> Option<Seq<char>> {
        None
    }

    fn name(&self) -> (r: &str) {
        self.name.as_str()
    }

    fn version(&self) -> (r: &str) {
        self.version.as_str()
    }

    fn description(&self) -> (r: &str) {
        self.description.as_str()
    }

    fn init(&mut self, context: &PluginContext) -> (r: Result<(), PluginError>)
        ensures
            r is Ok,
            *final(self) == *old(self),
    {
        Ok(())
    }

    fn execute_hook(&self, hook: &PluginHook) -> (r: Result<(), PluginError>)
        ensures
            r is Ok,
    {
        Ok(())
    }

    fn process_content(&self, content: &str, content_type: ContentType) -> (r: Result<
        String,
        PluginError,
    >) {
        Ok(self.process(content))
    }

    fn get_resources(&self) -> (r: Vec<(String, ResourceLocation)>)
        ensures
            r@.len() == 0,
    {
        let none: Vec<(String, ResourceLocation)> = Vec::new();
        assert(resource_views(none@) =~= Seq::empty());
        none
    }

    fn get_template_functions(&self) -> (r: Vec<String>)
        ensures
            r@.len() == 0,
    {
        let none: Vec<String> = Vec::new();
        assert(texts(none@) =~= Seq::<Seq<char>>::empty());
        none
    }

    fn call_template_function(&self, name: &str, args: &Vec<(String, Value)>) -> (r: Result<
        Value,
        String,
    >)
        ensures
            r matches Err(reason) && reason@ == name@,
    {
        Err(name.to_string())
    }

    fn cleanup(&self) -> (r: Result<(), PluginError>)
        ensures
            r is Ok,
    {
        Ok(())
    }
}

} // verus!
