//! The syntax-highlight plugin: turns fenced code blocks into highlighted
//! markup.

use vstd::prelude::*;
use vstd::string::*;
use crate::models::value::{flag_at, read_flag, read_text, text_at, Value};
use crate::plugins::comments::{plugin_settings, settings_entry};
use crate::plugins::error::{PluginError, PluginHook};
use crate::plugins::{resource_views, ContentType, Plugin, PluginContext, ResourceLocation};
use crate::text::{
    decimal, decimal_string, first_word, first_word_of, has_prefix, lines_of, replace_all,
    replace_text, starts_with_text, text_lines, texts, trim_start_char, without_leading,
};

verus! {

/// The settings of the plugin.
#[derive(Clone, Debug)]
pub struct SyntaxHighlightConfig {
    pub theme: String,
    pub line_numbers: bool,
    pub line_highlighting: bool,
    pub copy_button: bool,
    pub show_language: bool,
    pub default_language: String,
}

impl Default for SyntaxHighlightConfig {
    fn default() -> (r: SyntaxHighlightConfig)
        ensures
            r.theme@ == "Solarized (dark)"@,
            r.line_numbers,
            r.line_highlighting,
            r.copy_button,
            r.show_language,
            r.default_language@ == "text"@,
    {
        SyntaxHighlightConfig {
            theme: "Solarized (dark)".to_string(),
            line_numbers: true,
            line_highlighting: true,
            copy_button: true,
            show_language: true,
            default_language: "text".to_string(),
        }
    }
}

/// The prefix of the style classes of highlighted code.
pub const CLASS_PREFIX: &'static str = "highlight-";

/// The button that copies a code block, with its script.
pub const COPY_BUTTON: &'static str = "<button class=\"copy-button\" onclick=\"copyCode(this)\">复制</button>\n                <script>\n                function copyCode(button) {\n                    const pre = button.previousElementSibling;\n                    const code = pre.textContent;\n                    navigator.clipboard.writeText(code).then(() => {\n                        button.textContent = '已复制';\n                        setTimeout(() => {\n                            button.textContent = '复制';\n                        }, 2000);\n                    });\n                }\n                </script>";

/// Whether the default syntaxes of `syntect` hold one for the language token
/// `token`.
pub uninterp spec fn syntax_known(token: Seq<char>) -> bool;

/// Loads the default syntaxes with `SyntaxSet::load_defaults_newlines` and
/// looks the token up with `find_syntax_by_token`; the contract names the
/// answer.
#[verifier::external_body]
fn has_syntax(token: &str) -> (r: bool)
    ensures
        r == syntax_known(token@),
{
    syntect::parsing::SyntaxSet::load_defaults_newlines().find_syntax_by_token(token).is_some()
}

/// The syntax in which a block is highlighted: that of its language where
/// the default syntaxes hold one, else none, which stands for plain text.
pub open spec fn syntax_for(language: Option<Seq<char>>) -> Option<Seq<char>> {
    match language {
        Some(token) => if syntax_known(token) {
            Some(token)
        } else {
            None
        },
        None => None,
    }
}

/// Picks the syntax in which a block is highlighted.
pub fn choose_syntax<'a>(language: Option<&'a str>) -> (r: Option<&'a str>)
    ensures
        match r {
            Some(token) => syntax_for(
                match language {
                    Some(l) => Some(l@),
                    None => None,
                },
            ) == Some(token@),
            None => syntax_for(
                match language {
                    Some(l) => Some(l@),
                    None => None,
                },
            ) is None,
        },
{
    match language {
        Some(token) => if has_syntax(token) {
            Some(token)
        } else {
            None
        },
        None => None,
    }
}

/// The markup that `syntect` writes for one line, in the syntax that its
/// default set holds for the token `syntax`, or as plain text where no token
/// is given or the set holds no syntax for it; or the error it reports.
pub uninterp spec fn line_highlighted(
    syntax: Option<Seq<char>>,
    line: Seq<char>,
    prefix: Seq<char>,
) -> Result<Seq<char>, Seq<char>>;

/// The markup that `syntect` writes for a block of code as a whole, in the
/// syntax that its default set holds for the token `syntax`, or as plain
/// text where no token is given or the set holds no syntax for it; or the
/// error it reports.
pub uninterp spec fn block_highlighted(
    syntax: Option<Seq<char>>,
    code: Seq<char>,
    prefix: Seq<char>,
) -> Result<Seq<char>, Seq<char>>;

/// Loads the default syntaxes with `SyntaxSet::load_defaults_newlines`, finds
/// the syntax with `find_syntax_by_token` or `find_syntax_plain_text`, and
/// runs one `ClassedHTMLGenerator` on the line. The outcome depends on the
/// arguments alone; the contract names it.
#[verifier::external_body]
fn highlight_line(syntax: Option<&str>, line: &str, prefix: &'static str) -> (r: Result<
    String,
    String,
>)
    ensures
        match r {
            Ok(html) => line_highlighted(
                match syntax {
                    Some(l) => Some(l@),
                    None => None,
                },
                line@,
                prefix@,
            ) == Ok::<Seq<char>, Seq<char>>(html@),
            Err(e) => line_highlighted(
                match syntax {
                    Some(l) => Some(l@),
                    None => None,
                },
                line@,
                prefix@,
            ) == Err::<Seq<char>, Seq<char>>(e@),
        },
{
    let set = syntect::parsing::SyntaxSet::load_defaults_newlines();
    let syntax = syntax.and_then(|token| set.find_syntax_by_token(token)).unwrap_or_else(
        || set.find_syntax_plain_text(),
    );
    let style = syntect::html::ClassStyle::SpacedPrefixed { prefix };
    let mut g = syntect::html::ClassedHTMLGenerator::new_with_class_style(syntax, &set, style);
    g.parse_html_for_line_which_includes_newline(line).map_err(|e| e.to_string())?;
    Ok(g.finalize())
}

/// Loads the default syntaxes, finds the syntax, and runs one
/// `ClassedHTMLGenerator` over the lines of the block, line endings
/// included. The generator carries its state from line to line, so the
/// block is handed over as a whole. The outcome depends on the arguments
/// alone; the contract names it.
#[verifier::external_body]
fn highlight_block(syntax: Option<&str>, code: &str, prefix: &'static str) -> (r: Result<
    String,
    String,
>)
    ensures
        match r {
            Ok(html) => block_highlighted(
                match syntax {
                    Some(l) => Some(l@),
                    None => None,
                },
                code@,
                prefix@,
            ) == Ok::<Seq<char>, Seq<char>>(html@),
            Err(e) => block_highlighted(
                match syntax {
                    Some(l) => Some(l@),
                    None => None,
                },
                code@,
                prefix@,
            ) == Err::<Seq<char>, Seq<char>>(e@),
        },
{
    let set = syntect::parsing::SyntaxSet::load_defaults_newlines();
    let syntax = syntax.and_then(|token| set.find_syntax_by_token(token)).unwrap_or_else(
        || set.find_syntax_plain_text(),
    );
    let style = syntect::html::ClassStyle::SpacedPrefixed { prefix };
    let mut g = syntect::html::ClassedHTMLGenerator::new_with_class_style(syntax, &set, style);
    for line in syntect::util::LinesWithEndings::from(code) {
        g.parse_html_for_line_which_includes_newline(line).map_err(|e| e.to_string())?;
    }
    Ok(g.finalize())
}

/// The markup of every line, taken one by one and in order: a row for each
/// line, or the error of the first line that fails.
pub open spec fn lines_highlighted(
    syntax: Option<Seq<char>>,
    lines: Seq<Seq<char>>,
    prefix: Seq<char>,
) -> Result<Seq<Seq<char>>, Seq<char>>
    decreases lines.len(),
{
    if lines.len() == 0 {
        Ok(Seq::empty())
    } else {
        match lines_highlighted(syntax, lines.drop_last(), prefix) {
            Ok(rows) => match line_highlighted(syntax, lines.last(), prefix) {
                Ok(row) => Ok(rows.push(row)),
                Err(e) => Err(e),
            },
            Err(e) => Err(e),
        }
    }
}

/// Where every line is highlighted there is one row for each line, and row
/// `k` is the markup of line `k`; where a line fails, the error is that of
/// the first such line.
pub proof fn lemma_rows_by_line(syntax: Option<Seq<char>>, lines: Seq<Seq<char>>, prefix: Seq<char>)
    ensures
        match lines_highlighted(syntax, lines, prefix) {
            Ok(rows) => rows.len() == lines.len() && (forall|k: int|
                0 <= k < lines.len() ==> line_highlighted(syntax, #[trigger] lines[k], prefix)
                    == Ok::<Seq<char>, Seq<char>>(rows[k])),
            Err(e) => exists|k: int|
                0 <= k < lines.len() && line_highlighted(syntax, #[trigger] lines[k], prefix)
                    == Err::<Seq<char>, Seq<char>>(e) && (forall|j: int|
                    0 <= j < k ==> line_highlighted(syntax, #[trigger] lines[j], prefix) is Ok),
        },
    decreases lines.len(),
{
    if lines.len() > 0 {
        let most = lines.drop_last();
        lemma_rows_by_line(syntax, most, prefix);
        match lines_highlighted(syntax, most, prefix) {
            Ok(rows) => {
                assert forall|k: int| 0 <= k < most.len() implies line_highlighted(
                    syntax,
                    #[trigger] lines[k],
                    prefix,
                ) == Ok::<Seq<char>, Seq<char>>(rows[k]) by {
                    assert(most[k] == lines[k]);
                }
                match line_highlighted(syntax, lines.last(), prefix) {
                    Ok(row) => {},
                    Err(e) => {
                        assert(lines[lines.len() - 1] == lines.last());
                    },
                }
            },
            Err(e) => {
                let k = choose|k: int|
                    0 <= k < most.len() && line_highlighted(syntax, #[trigger] most[k], prefix)
                        == Err::<Seq<char>, Seq<char>>(e) && (forall|j: int|
                        0 <= j < k ==> line_highlighted(syntax, #[trigger] most[j], prefix)
                            is Ok);
                assert(most[k] == lines[k]);
                assert forall|j: int| 0 <= j < k implies line_highlighted(
                    syntax,
                    #[trigger] lines[j],
                    prefix,
                ) is Ok by {
                    assert(most[j] == lines[j]);
                }
            },
        }
    }
}

/// Highlights the lines one by one, in order, and stops at the first line
/// that fails.
fn highlight_each(syntax: Option<&str>, lines: &Vec<String>, prefix: &'static str) -> (r: Result<
    Vec<String>,
    String,
>)
    ensures
        match r {
            Ok(rows) => lines_highlighted(
                match syntax {
                    Some(l) => Some(l@),
                    None => None,
                },
                texts(lines@),
                prefix@,
            ) == Ok::<Seq<Seq<char>>, Seq<char>>(texts(rows@)),
            Err(e) => lines_highlighted(
                match syntax {
                    Some(l) => Some(l@),
                    None => None,
                },
                texts(lines@),
                prefix@,
            ) == Err::<Seq<Seq<char>>, Seq<char>>(e@),
        },
{
    let ghost token = match syntax {
        Some(l) => Some(l@),
        None => None,
    };
    let ghost all = texts(lines@);
    let mut rows: Vec<String> = Vec::new();
    let mut i: usize = 0;
    assert(texts(rows@) =~= Seq::<Seq<char>>::empty());
    assert(all.take(0) =~= Seq::<Seq<char>>::empty());
    while i < lines.len()
        invariant
            i <= lines.len(),
            all == texts(lines@),
            token == match syntax {
                Some(l) => Some(l@),
                None => None,
            },
            lines_highlighted(token, all.take(i as int), prefix@) == Ok::<
                Seq<Seq<char>>,
                Seq<char>,
            >(texts(rows@)),
        decreases lines.len() - i,
    {
        proof {
            assert(all.take(i + 1).drop_last() == all.take(i as int));
            assert(all.take(i + 1).last() == lines@[i as int]@);
        }
        match highlight_line(syntax, lines[i].as_str(), prefix) {
            Ok(row) => {
                let ghost before = texts(rows@);
                rows.push(row);
                assert(texts(rows@) =~= before.push(row@));
            },
            Err(e) => {
                proof {
                    lemma_error_stays(token, all, prefix@, i + 1, e@);
                }
                return Err(e);
            },
        }
        i = i + 1;
    }
    assert(all.take(i as int) == all);
    Ok(rows)
}

/// An error among the first `n` lines is the error of all the lines.
proof fn lemma_error_stays(
    syntax: Option<Seq<char>>,
    lines: Seq<Seq<char>>,
    prefix: Seq<char>,
    n: int,
    e: Seq<char>,
)
    requires
        0 <= n <= lines.len(),
        lines_highlighted(syntax, lines.take(n), prefix) == Err::<Seq<Seq<char>>, Seq<char>>(e),
    ensures
        lines_highlighted(syntax, lines, prefix) == Err::<Seq<Seq<char>>, Seq<char>>(e),
    decreases lines.len() - n,
{
    if n < lines.len() {
        assert(lines.take(n + 1).drop_last() == lines.take(n));
        lemma_error_stays(syntax, lines, prefix, n + 1, e);
    } else {
        assert(lines.take(n) == lines);
    }
}

/// The rows of a numbered code table: each line with its number, counted
/// from one.
pub open spec fn numbered_rows(rows: Seq<Seq<char>>) -> Seq<char>
    decreases rows.len(),
{
    if rows.len() == 0 {
        Seq::empty()
    } else {
        numbered_rows(rows.drop_last()) + "<tr><td class=\"line-number\">"@ + decimal(
            rows.len(),
        ) + "</td><td class=\"line-content\">"@ + rows.last() + "</td></tr>"@
    }
}

/// The markup of a code block, given the highlighted code: the label of the
/// language, where there is one and labels are switched on, the code, and
/// the copy button where it is switched on.
pub open spec fn code_html(
    config: SyntaxHighlightConfig,
    language: Option<Seq<char>>,
    body: Seq<char>,
) -> Seq<char> {
    (match language {
        Some(l) => if config.show_language {
            "<div class=\"code-language\">"@ + l + "</div>"@
        } else {
            Seq::empty()
        },
        None => Seq::empty(),
    }) + "<pre><code class=\"hljs "@ + (match language {
        Some(l) => l,
        None => "text"@,
    }) + "\">"@ + body + "</code></pre>"@ + (if config.copy_button {
        COPY_BUTTON@
    } else {
        Seq::empty()
    })
}

/// The highlighted body of a code block: a table with numbered rows, or the
/// block as a whole, in the syntax of its language, or as plain text where
/// the language is unknown or absent.
pub open spec fn code_body(
    config: SyntaxHighlightConfig,
    language: Option<Seq<char>>,
    code: Seq<char>,
) -> Result<Seq<char>, Seq<char>> {
    if config.line_numbers {
        match lines_highlighted(syntax_for(language), text_lines(code), CLASS_PREFIX@) {
            Ok(rows) => Ok(
                "<table class=\"highlight-table\"><tbody>"@ + numbered_rows(rows)
                    + "</tbody></table>"@,
            ),
            Err(e) => Err(e),
        }
    } else {
        block_highlighted(syntax_for(language), code, CLASS_PREFIX@)
    }
}

/// The markup of a code block, or the error of the highlighter.
pub open spec fn highlighted_code(
    config: SyntaxHighlightConfig,
    language: Option<Seq<char>>,
    code: Seq<char>,
) -> Result<Seq<char>, Seq<char>> {
    match code_body(config, language, code) {
        Ok(body) => Ok(code_html(config, language, body)),
        Err(e) => Err(e),
    }
}

fn write_rows(rows: &Vec<String>) -> (r: String)
    ensures
        r@ == numbered_rows(texts(rows@)),
{
    let mut out = String::new();
    let mut i: usize = 0;
    while i < rows.len()
        invariant
            i <= rows.len(),
            out@ == numbered_rows(texts(rows@).take(i as int)),
        decreases rows.len() - i,
    {
        proof {
            let all = texts(rows@);
            assert(all.take(i + 1).drop_last() == all.take(i as int));
            assert(all.take(i + 1).last() == rows@[i as int]@);
        }
        let mut row = "<tr><td class=\"line-number\">".to_string();
        let number = decimal_string((i as u64) + 1);
        row.append(number.as_str());
        row.append("</td><td class=\"line-content\">");
        row.append(rows[i].as_str());
        row.append("</td></tr>");
        out.append(row.as_str());
        assert(out@ =~= numbered_rows(texts(rows@).take(i + 1)));
        i = i + 1;
    }
    assert(texts(rows@).take(i as int) == texts(rows@));
    out
}

/// The language that the opening fence of a code block names: the first
/// word after the backticks.
pub open spec fn fence_language(line: Seq<char>) -> Option<Seq<char>> {
    first_word(without_leading(line, '`'))
}

/// Whether a line is a fence.
pub open spec fn is_fence(line: Seq<char>) -> bool {
    has_prefix(line, "```"@)
}

/// The state of the plugin between two lines of a document: what is written
/// so far, and, inside a code block, its language and its lines so far.
pub struct Scan {
    pub out: Seq<char>,
    pub inside: bool,
    pub language: Option<Seq<char>>,
    pub code: Seq<char>,
}

/// The state after the lines of a document, or the error of the
/// highlighter. Outside code blocks lines stand as they are; an opening
/// fence opens the frame of a code block, a closing fence puts the
/// highlighted block in its place.
pub open spec fn scanned(config: SyntaxHighlightConfig, lines: Seq<Seq<char>>) -> Result<
    Scan,
    Seq<char>,
>
    decreases lines.len(),
{
    if lines.len() == 0 {
        Ok(Scan { out: Seq::empty(), inside: false, language: None, code: Seq::empty() })
    } else {
        match scanned(config, lines.drop_last()) {
            Err(e) => Err(e),
            Ok(state) => {
                let line = lines.last();
                if is_fence(line) {
                    if state.inside {
                        match highlighted_code(config, state.language, state.code) {
                            Ok(html) => Ok(
                                Scan {
                                    out: state.out + html + "\n"@,
                                    inside: false,
                                    language: None,
                                    code: Seq::empty(),
                                },
                            ),
                            Err(e) => Err(e),
                        }
                    } else {
                        Ok(
                            Scan {
                                out: state.out + "<div class=\"code-block\">\n"@,
                                inside: true,
                                language: fence_language(line),
                                code: state.code,
                            },
                        )
                    }
                } else if state.inside {
                    Ok(
                        Scan {
                            out: state.out,
                            inside: true,
                            language: state.language,
                            code: state.code + line + "\n"@,
                        },
                    )
                } else {
                    Ok(
                        Scan {
                            out: state.out + line + "\n"@,
                            inside: false,
                            language: None,
                            code: state.code,
                        },
                    )
                }
            },
        }
    }
}

/// Code as plain markup: angle brackets escaped.
pub open spec fn escaped(code: Seq<char>) -> Seq<char> {
    replace_all(replace_all(code, "<"@, "&lt;"@), ">"@, "&gt;"@)
}

/// What the plugin makes of a document, or the error of the highlighter. A
/// code block that is still open at the end stands as plain code.
pub open spec fn highlighted_document(config: SyntaxHighlightConfig, content: Seq<char>) -> Result<
    Seq<char>,
    Seq<char>,
> {
    match scanned(config, text_lines(content)) {
        Err(e) => Err(e),
        Ok(state) => if state.inside {
            Ok(state.out + "<pre><code>"@ + escaped(state.code) + "</code></pre>\n</div>\n"@)
        } else {
            Ok(state.out)
        },
    }
}

/// The syntax-highlight plugin.
#[derive(Clone, Debug)]
pub struct SyntaxHighlightPlugin {
    name: String,
    version: String,
    description: String,
    config: SyntaxHighlightConfig,
}

/// Whether `c` holds the settings of the plugin that `value` gives.
pub open spec fn is_highlight_of(c: SyntaxHighlightConfig, value: Value) -> bool {
    &&& text_at(value, "theme"@) == Some(c.theme@)
    &&& flag_at(value, "line_numbers"@) == Some(c.line_numbers)
    &&& flag_at(value, "line_highlighting"@) == Some(c.line_highlighting)
    &&& flag_at(value, "copy_button"@) == Some(c.copy_button)
    &&& flag_at(value, "show_language"@) == Some(c.show_language)
    &&& text_at(value, "default_language"@) == Some(c.default_language@)
}

/// Whether `value` gives every setting of the plugin.
pub open spec fn gives_highlight(value: Value) -> bool {
    &&& text_at(value, "theme"@) is Some
    &&& flag_at(value, "line_numbers"@) is Some
    &&& flag_at(value, "line_highlighting"@) is Some
    &&& flag_at(value, "copy_button"@) is Some
    &&& flag_at(value, "show_language"@) is Some
    &&& text_at(value, "default_language"@) is Some
}

/// Reads the settings of the plugin; every key is required.
pub fn read_highlight_config(value: &Value) -> (r: Option<SyntaxHighlightConfig>)
    ensures
        match r {
            Some(c) => is_highlight_of(c, *value),
            None => !gives_highlight(*value),
        },
{
    let theme = read_text(value, "theme")?;
    let line_numbers = read_flag(value, "line_numbers")?;
    let line_highlighting = read_flag(value, "line_highlighting")?;
    let copy_button = read_flag(value, "copy_button")?;
    let show_language = read_flag(value, "show_language")?;
    let default_language = read_text(value, "default_language")?;
    Some(
        SyntaxHighlightConfig {
            theme,
            line_numbers,
            line_highlighting,
            copy_button,
            show_language,
            default_language,
        },
    )
}

impl SyntaxHighlightPlugin {
    /// The settings in use.
    pub closed spec fn settings(&self) -> SyntaxHighlightConfig {
        self.config
    }

    /// A plugin that numbers lines, labels languages and offers a copy
    /// button.
    pub fn new() -> (r: Self)
        ensures
            r.reported_name() == "syntax-highlight"@,
            r.reported_version() == "0.1.0"@,
            r.reported_description() == "代码高亮插件，支持多种编程语言和主题"@,
            r.settings().theme@ == "Solarized (dark)"@,
            r.settings().line_numbers,
            r.settings().line_highlighting,
            r.settings().copy_button,
            r.settings().show_language,
            r.settings().default_language@ == "text"@,
    {
        SyntaxHighlightPlugin {
            name: "syntax-highlight".to_string(),
            version: "0.1.0".to_string(),
            description: "代码高亮插件，支持多种编程语言和主题".to_string(),
            config: SyntaxHighlightConfig::default(),
        }
    }

    /// A plugin with the given settings.
    pub fn with_config(config: SyntaxHighlightConfig) -> (r: Self)
        ensures
            r.reported_name() == "syntax-highlight"@,
            r.reported_version() == "0.1.0"@,
            r.reported_description() == "代码高亮插件，支持多种编程语言和主题"@,
            r.settings() == config,
    {
        SyntaxHighlightPlugin {
            name: "syntax-highlight".to_string(),
            version: "0.1.0".to_string(),
            description: "代码高亮插件，支持多种编程语言和主题".to_string(),
            config,
        }
    }

    /// Writes the markup of a code block around its highlighted code.
    pub fn wrap_code(&self, language: Option<&str>, body: &str) -> (r: String)
        ensures
            r@ == code_html(
                self.settings(),
                match language {
                    Some(l) => Some(l@),
                    None => None,
                },
                body@,
            ),
    {
        let mut html = String::new();
        match language {
            Some(l) => {
                if self.config.show_language {
                    html.append("<div class=\"code-language\">");
                    html.append(l);
                    html.append("</div>");
                }
            },
            None => {},
        }
        html.append("<pre><code class=\"hljs ");
        match language {
            Some(l) => html.append(l),
            None => html.append("text"),
        }
        html.append("\">");
        html.append(body);
        html.append("</code></pre>");
        if self.config.copy_button {
            html.append(COPY_BUTTON);
        }
        html
    }

    /// Highlights a block of code.
    pub fn highlight_code(&self, code: &str, language: Option<&str>) -> (r: Result<String, String>)
        ensures
            match r {
                Ok(html) => highlighted_code(
                    self.settings(),
                    match language {
                        Some(l) => Some(l@),
                        None => None,
                    },
                    code@,
                ) == Ok::<Seq<char>, Seq<char>>(html@),
                Err(e) => highlighted_code(
                    self.settings(),
                    match language {
                        Some(l) => Some(l@),
                        None => None,
                    },
                    code@,
                ) == Err::<Seq<char>, Seq<char>>(e@),
            },
    {
        let syntax = choose_syntax(language);
        let body = if self.config.line_numbers {
            let lines = lines_of(code);
            let rows = highlight_each(syntax, &lines, CLASS_PREFIX)?;
            let mut table = "<table class=\"highlight-table\"><tbody>".to_string();
            let written = write_rows(&rows);
            table.append(written.as_str());
            table.append("</tbody></table>");
            table
        } else {
            highlight_block(syntax, code, CLASS_PREFIX)?
        };
        Ok(self.wrap_code(language, body.as_str()))
    }

    /// Works a document over.
    pub fn process(&self, content: &str) -> (r: Result<String, String>)
        ensures
            match r {
                Ok(out) => highlighted_document(self.settings(), content@) == Ok::<
                    Seq<char>,
                    Seq<char>,
                >(out@),
                Err(e) => highlighted_document(self.settings(), content@) == Err::<
                    Seq<char>,
                    Seq<char>,
                >(e@),
            },
    {
        let lines = lines_of(content);
        let ghost all = texts(lines@);
        let mut out = String::new();
        let mut inside = false;
        let mut language: Option<String> = None;
        let mut code = String::new();
        let mut i: usize = 0;
        while i < lines.len()
            invariant
                i <= lines.len(),
                all == texts(lines@),
                all == text_lines(content@),
                scanned(self.settings(), all.take(i as int)) == Ok::<Scan, Seq<char>>(
                    Scan {
                        out: out@,
                        inside,
                        language: match language {
                            Some(l) => Some(l@),
                            None => None,
                        },
                        code: code@,
                    },
                ),
            decreases lines.len() - i,
        {
            proof {
                assert(all.take(i + 1).drop_last() == all.take(i as int));
                assert(all.take(i + 1).last() == lines@[i as int]@);
            }
            let line = lines[i].as_str();
            if starts_with_text(line, "```") {
                if inside {
                    let html = match &language {
                        Some(l) => self.highlight_code(code.as_str(), Some(l.as_str())),
                        None => self.highlight_code(code.as_str(), None),
                    };
                    match html {
                        Ok(html) => {
                            out.append(html.as_str());
                            out.append("\n");
                            code = String::new();
                            inside = false;
                            language = None;
                        },
                        Err(e) => {
                            proof {
                                assert(is_fence(all.take(i + 1).last()));
                                assert(scanned(self.settings(), all.take(i + 1)) == Err::<
                                    Scan,
                                    Seq<char>,
                                >(e@));
                                lemma_scan_error(self.settings(), all, i + 1, e@);
                                assert(all == text_lines(content@));
                            }
                            return Err(e);
                        },
                    }
                } else {
                    inside = true;
                    let rest = trim_start_char(line, '`');
                    language = first_word_of(rest.as_str());
                    out.append("<div class=\"code-block\">\n");
                }
            } else if inside {
                code.append(line);
                code.append("\n");
            } else {
                out.append(line);
                out.append("\n");
            }
            i = i + 1;
        }
        assert(all.take(i as int) == all);
        if inside {
            out.append("<pre><code>");
            let less = replace_text(code.as_str(), "<", "&lt;");
            let plain = replace_text(less.as_str(), ">", "&gt;");
            out.append(plain.as_str());
            out.append("</code></pre>\n</div>\n");
        }
        Ok(out)
    }
}

/// Once the highlighter reports an error, the error stays whatever follows.
proof fn lemma_scan_error(
    config: SyntaxHighlightConfig,
    lines: Seq<Seq<char>>,
    n: int,
    e: Seq<char>,
)
    requires
        0 <= n <= lines.len(),
        scanned(config, lines.take(n)) == Err::<Scan, Seq<char>>(e),
    ensures
        scanned(config, lines) == Err::<Scan, Seq<char>>(e),
    decreases lines.len() - n,
{
    if n < lines.len() {
        assert(lines.take(n + 1).drop_last() == lines.take(n));
        lemma_scan_error(config, lines, n + 1, e);
    } else {
        assert(lines.take(n) == lines);
    }
}

impl Plugin for SyntaxHighlightPlugin {
    open spec fn transformed(&self, content: Seq<char>, content_type: ContentType) -> Option<
        Seq<char>,
    > {
        match highlighted_document(self.settings(), content) {
            Ok(out) => Some(out),
            Err(_) => None,
        }
    }

    closed spec fn reported_name(&self) -> Seq<char> {
        self.name@
    }

    closed spec fn reported_version(&self) -> Seq<char> {
        self.version@
    }

    closed spec fn reported_description(&self) -> Seq<char> {
        self.description@
    }

    /// The plugin has no assets of its own to inject.
    open spec fn offered_resources(&self) -> Seq<(Seq<char>, ResourceLocation)> {
        Seq::empty()
    }

    /// The plugin offers no template function.
    open spec fn offered_functions(&self) -> Seq<Seq<char>> {
        Seq::empty()
    }

    /// The plugin succeeds at every checkpoint.
    open spec fn hook_answer(&self, hook: PluginHook) -> Option<Seq<char>> {
        None
    }

    /// The plugin holds nothing that could fail to be released.
    open spec fn cleanup_answer(&self) -> Option<Seq<char>> {
        None
    }

    fn name(&self) -> (r: &str) {
        self.name.as_str()
    }

    fn version(&self) -> (r: &str) {
        self.version.as_str()
    }

    fn description(&self) -> (r: &str) {
        self.description.as_str()
    }

    /// Takes the settings from the entry `syntax-highlight` of the theme
    /// configuration, where the site lists the plugin and the entry is
    /// complete; else the settings stay as they are.
    fn init(&mut self, context: &PluginContext) -> (r: Result<(), PluginError>)
        ensures
            r is Ok,
            final(self).reported_name() == old(self).reported_name(),
            match settings_entry(*context, "syntax-highlight"@, "syntax-highlight"@) {
                Some(value) => if gives_highlight(value) {
                    is_highlight_of(final(self).settings(), value)
                } else {
                    final(self).settings() == old(self).settings()
                },
                None => final(self).settings() == old(self).settings(),
            },
    {
        match plugin_settings(context, "syntax-highlight", "syntax-highlight") {
            Some(value) => match read_highlight_config(value) {
                Some(config) => {
                    self.config = config;
                },
                None => {},
            },
            None => {},
        }
        Ok(())
    }

    fn execute_hook(&self, hook: &PluginHook) -> (r: Result<(), PluginError>)
        ensures
            r is Ok,
    {
        Ok(())
    }

    fn process_content(&self, content: &str, content_type: ContentType) -> (r: Result<
        String,
        PluginError,
    >) {
        match self.process(content) {
            Ok(out) => Ok(out),
            Err(e) => Err(PluginError::Other(e)),
        }
    }

    fn get_resources(&self) -> (r: Vec<(String, ResourceLocation)>)
        ensures
            r@.len() == 0,
    {
        let none: Vec<(String, ResourceLocation)> = Vec::new();
        assert(resource_views(none@) =~= Seq::empty());
        none
    }

    fn get_template_functions(&self) -> (r: Vec<String>)
        ensures
            r@.len() == 0,
    {
        let none: Vec<String> = Vec::new();
        assert(texts(none@) =~= Seq::<Seq<char>>::empty());
        none
    }

    fn call_template_function(&self, name: &str, args: &Vec<(String, Value)>) -> (r: Result<
        Value,
        String,
    >)
        ensures
            r matches Err(reason) && reason@ == name@,
    {
        Err(name.to_string())
    }

    fn cleanup(&self) -> (r: Result<(), PluginError>)
        ensures
            r is Ok,
    {
        Ok(())
    }
}

} // verus!
