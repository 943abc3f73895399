//! The math plugin: marks up formulas in HTML and brings in the scripts that
//! draw them.

use vstd::prelude::*;
use vstd::string::*;
use crate::models::value::{
    flag_at, read_flag, read_text, read_value, text_at, value_at, Value,
};
use crate::plugins::comments::{flag_text, plugin_settings, settings_entry};
use crate::plugins::error::{PluginError, PluginHook};
use crate::text::texts;
use crate::plugins::{resource_views, ContentType, Plugin, PluginContext, ResourceLocation};
use crate::text::{contains_text, occurs, replace_all, replace_text, same_text};

verus! {

/// The settings of the KaTeX engine.
#[derive(Clone, Debug)]
pub struct KatexConfig {
    pub macros: bool,
    pub auto_render: bool,
    pub mhchem: bool,
    pub throw_on_error: bool,
    pub error_color: String,
}

/// The settings of the MathJax engine.
#[derive(Clone, Debug)]
pub struct MathJaxConfig {
    pub cdn_url: String,
    pub svg: bool,
    pub common_html: bool,
    pub chtml_preview: bool,
}

/// The settings of the plugin.
#[derive(Clone, Debug)]
pub struct MathConfig {
    /// `katex` or `mathjax`.
    pub engine: String,
    pub inline: bool,
    pub block: bool,
    pub katex: KatexConfig,
    pub mathjax: MathJaxConfig,
}

impl Default for KatexConfig {
    fn default() -> (r: KatexConfig)
        ensures
            r.macros,
            r.auto_render,
            r.mhchem,
            !r.throw_on_error,
            r.error_color@ == "#cc0000"@,
    {
        KatexConfig {
            macros: true,
            auto_render: true,
            mhchem: true,
            throw_on_error: false,
            error_color: "#cc0000".to_string(),
        }
    }
}

impl Default for MathJaxConfig {
    fn default() -> (r: MathJaxConfig)
        ensures
            r.cdn_url@ == "https://cdn.jsdelivr.net/npm/mathjax@3/es5/tex-mml-chtml.js"@,
            !r.svg,
            r.common_html,
            !r.chtml_preview,
    {
        MathJaxConfig {
            cdn_url: "https://cdn.jsdelivr.net/npm/mathjax@3/es5/tex-mml-chtml.js".to_string(),
            svg: false,
            common_html: true,
            chtml_preview: false,
        }
    }
}

impl MathConfig {
    /// Whether these are the settings of a site that sets nothing: KaTeX for
    /// inline and block formulas, with the settings of both engines at their
    /// defaults.
    pub open spec fn is_default(self) -> bool {
        &&& self.engine@ == "katex"@
        &&& self.inline
        &&& self.block
        &&& self.katex.macros
        &&& self.katex.auto_render
        &&& self.katex.mhchem
        &&& !self.katex.throw_on_error
        &&& self.katex.error_color@ == "#cc0000"@
        &&& self.mathjax.cdn_url@ == "https://cdn.jsdelivr.net/npm/mathjax@3/es5/tex-mml-chtml.js"@
        &&& !self.mathjax.svg
        &&& self.mathjax.common_html
        &&& !self.mathjax.chtml_preview
    }
}

impl Default for MathConfig {
    fn default() -> (r: MathConfig)
        ensures
            r.is_default(),
    {
        MathConfig {
            engine: "katex".to_string(),
            inline: true,
            block: true,
            katex: KatexConfig::default(),
            mathjax: MathJaxConfig::default(),
        }
    }
}

/// The pattern of an inline formula: text between single dollar signs.
pub open spec fn inline_pattern() -> Seq<char> {
    "\\$([^\\$]+)\\$"@
}

/// The pattern of a block formula: text between double dollar signs, as
/// short as possible.
pub open spec fn block_pattern() -> Seq<char> {
    "\\$\\$([\\s\\S]+?)\\$\\$"@
}

/// Whether the engine is one the plugin knows.
pub open spec fn known_engine(engine: Seq<char>) -> bool {
    engine == "katex"@ || engine == "mathjax"@
}

/// The markup that stands for one formula: the formula in the delimiters of
/// its kind, wrapped for styling; under an unknown engine the match is left
/// as it is.
pub open spec fn formula_html(
    engine: Seq<char>,
    inline: bool,
    whole: Seq<char>,
    formula: Seq<char>,
) -> Seq<char> {
    if !known_engine(engine) {
        whole
    } else if inline {
        "<span class=\"math inline\">\\("@ + formula + "\\)</span>"@
    } else {
        "<div class=\"math block\">\\["@ + formula + "\\]</div>"@
    }
}

/// Writes the markup that stands for one formula.
pub fn formula_markup(engine: &str, inline: bool, whole: &str, formula: &str) -> (r: String)
    ensures
        r@ == formula_html(engine@, inline, whole@, formula@),
{
    if !(same_text(engine, "katex") || same_text(engine, "mathjax")) {
        return whole.to_string();
    }
    let mut out = String::new();
    if inline {
        out.append("<span class=\"math inline\">\\(");
        out.append(formula);
        out.append("\\)</span>");
    } else {
        out.append("<div class=\"math block\">\\[");
        out.append(formula);
        out.append("\\]</div>");
    }
    out
}

/// What a match of a pattern is replaced by.
#[derive(Clone, Debug)]
pub enum Rewrite {
    /// By the markup of the formula that is its first group.
    Formula { engine: String, inline: bool },
    /// By nothing.
    Erase,
}

impl Rewrite {
    /// The kind of the rewriting as a number, the engine, and whether
    /// formulas are inline.
    pub open spec fn view(&self) -> (int, Seq<char>, bool) {
        match self {
            Rewrite::Formula { engine, inline } => (0, engine@, *inline),
            Rewrite::Erase => (1, Seq::empty(), false),
        }
    }
}

/// What stands in for one match.
pub open spec fn replacement_text(rewrite: Rewrite, whole: Seq<char>, group: Seq<char>) -> Seq<
    char,
> {
    match rewrite {
        Rewrite::Formula { engine, inline } => formula_html(engine@, inline, whole, group),
        Rewrite::Erase => Seq::empty(),
    }
}

/// Writes what stands in for one match.
pub fn replacement(rewrite: &Rewrite, whole: &str, group: &str) -> (r: String)
    ensures
        r@ == replacement_text(*rewrite, whole@, group@),
{
    match rewrite {
        Rewrite::Formula { engine, inline } => formula_markup(engine.as_str(), *inline, whole, group),
        Rewrite::Erase => String::new(),
    }
}

/// The content after the `regex` crate replaced every match of `pattern` by
/// what the rewriting makes of the match and of its first group. Where
/// `pattern` is no regular expression the content stays as it is.
pub uninterp spec fn matches_rewritten(
    pattern: Seq<char>,
    content: Seq<char>,
    rewrite: (int, Seq<char>, bool),
) -> Seq<char>;

/// Calls `regex::Regex::new` and `Regex::replace_all`; each match is replaced
/// by what `replacement` makes of it and of its first group. The outcome
/// depends on the arguments alone; the contract names it.
#[verifier::external_body]
pub(crate) fn rewrite_matches(pattern: &str, content: &str, rewrite: &Rewrite) -> (r: String)
    ensures
        r@ == matches_rewritten(pattern@, content@, rewrite@),
{
    match regex::Regex::new(pattern) {
        Ok(re) => re.replace_all(
            content,
            |caps: &regex::Captures| replacement(
                rewrite,
                caps.get(0).map_or("", |m| m.as_str()),
                caps.get(1).map_or("", |m| m.as_str()),
            ),
        ).into_owned(),
        Err(_) => content.to_string(),
    }
}

/// The content with the formulas of one kind marked.
pub open spec fn formulas_marked(
    pattern: Seq<char>,
    content: Seq<char>,
    engine: Seq<char>,
    inline: bool,
) -> Seq<char> {
    matches_rewritten(pattern, content, (0, engine, inline))
}

fn mark_formulas(pattern: &str, content: &str, engine: &str, inline: bool) -> (r: String)
    ensures
        r@ == formulas_marked(pattern@, content@, engine@, inline),
{
    let rewrite = Rewrite::Formula { engine: engine.to_string(), inline };
    rewrite_matches(pattern, content, &rewrite)
}

/// What goes into the head of a page for KaTeX.
pub open spec fn katex_head(katex: KatexConfig) -> Seq<char> {
    "\n<link rel=\"stylesheet\" href=\"https://cdn.jsdelivr.net/npm/katex@0.16.9/dist/katex.min.css\">\n<script defer src=\"https://cdn.jsdelivr.net/npm/katex@0.16.9/dist/katex.min.js\"></script>\n"@
        + (if katex.auto_render {
        "<script defer src=\"https://cdn.jsdelivr.net/npm/katex@0.16.9/dist/contrib/auto-render.min.js\"></script>"@
    } else {
        Seq::empty()
    }) + (if katex.mhchem {
        "<script defer src=\"https://cdn.jsdelivr.net/npm/katex@0.16.9/dist/contrib/mhchem.min.js\"></script>"@
    } else {
        Seq::empty()
    })
}

/// What goes to the end of the body of a page for KaTeX.
pub open spec fn katex_body(katex: KatexConfig) -> Seq<char> {
    if katex.auto_render {
        "\n<script>\ndocument.addEventListener(\"DOMContentLoaded\", function() {\n    renderMathInElement(document.body, {\n        delimiters: [\n            {left: \"$$\", right: \"$$\", display: true},\n            {left: \"$\", right: \"$\", display: false},\n            {left: \"\\\\(\", right: \"\\\\)\", display: false},\n            {left: \"\\\\[\", right: \"\\\\]\", display: true}\n        ],\n        throwOnError: "@
            + flag_text(katex.throw_on_error) + ",\n        errorColor: \""@ + katex.error_color@
            + "\",\n        macros: {}\n    });\n});\n</script>\n"@
    } else {
        Seq::empty()
    }
}

/// What goes into the head of a page for MathJax.
pub open spec fn mathjax_head(mathjax: MathJaxConfig) -> Seq<char> {
    "\n<script>\nMathJax = {\n    tex: {\n        inlineMath: [['$', '$'], ['\\\\(', '\\\\)']],\n        displayMath: [['$$', '$$'], ['\\\\[', '\\\\]']],\n        processEscapes: true,\n        processEnvironments: true\n    },\n    options: {\n        skipHtmlTags: ['script', 'noscript', 'style', 'textarea', 'pre']\n    }\n};\n</script>\n<script type=\"text/javascript\" id=\"MathJax-script\" async src=\""@
        + mathjax.cdn_url@ + "\"></script>\n"@
}

/// What the engine in use puts into the head of a page.
pub open spec fn head_scripts(config: MathConfig) -> Seq<char> {
    if config.engine@ == "katex"@ {
        katex_head(config.katex)
    } else if config.engine@ == "mathjax"@ {
        mathjax_head(config.mathjax)
    } else {
        Seq::empty()
    }
}

/// What the engine in use puts at the end of the body of a page.
pub open spec fn body_scripts(config: MathConfig) -> Seq<char> {
    if config.engine@ == "katex"@ {
        katex_body(config.katex)
    } else {
        Seq::empty()
    }
}

/// `content` with `scripts` before every occurrence of `closing`; without an
/// occurrence the content stays as it is.
pub open spec fn inserted_before(
    content: Seq<char>,
    closing: Seq<char>,
    scripts: Seq<char>,
) -> Seq<char> {
    if occurs(content, closing) {
        replace_all(content, closing, scripts + closing)
    } else {
        content
    }
}

/// The page with the scripts of the engine in its head and at the end of its
/// body.
pub open spec fn with_dependencies(config: MathConfig, content: Seq<char>) -> Seq<char> {
    inserted_before(
        inserted_before(content, "</head>"@, head_scripts(config)),
        "</body>"@,
        body_scripts(config),
    )
}

/// What the plugin makes of a content: only HTML is touched; there, inline
/// formulas are marked first, then block formulas, each where switched on,
/// and the scripts are brought in.
pub open spec fn with_math(
    config: MathConfig,
    content: Seq<char>,
    content_type: ContentType,
) -> Seq<char> {
    if content_type != ContentType::HTML {
        content
    } else {
        let inlined = if config.inline {
            formulas_marked(inline_pattern(), content, config.engine@, true)
        } else {
            content
        };
        let blocked = if config.block {
            formulas_marked(block_pattern(), inlined, config.engine@, false)
        } else {
            inlined
        };
        with_dependencies(config, blocked)
    }
}

fn insert_before(content: &str, closing: &str, scripts: &str) -> (r: String)
    ensures
        r@ == inserted_before(content@, closing@, scripts@),
{
    if contains_text(content, closing) {
        let mut replacement = scripts.to_string();
        replacement.append(closing);
        replace_text(content, closing, replacement.as_str())
    } else {
        content.to_string()
    }
}

/// Whether `c` holds the settings of the KaTeX engine that `value` gives.
pub open spec fn is_katex_of(c: KatexConfig, value: Value) -> bool {
    &&& flag_at(value, "macros"@) == Some(c.macros)
    &&& flag_at(value, "auto_render"@) == Some(c.auto_render)
    &&& flag_at(value, "mhchem"@) == Some(c.mhchem)
    &&& flag_at(value, "throw_on_error"@) == Some(c.throw_on_error)
    &&& text_at(value, "error_color"@) == Some(c.error_color@)
}

/// Whether `value` gives every setting of the KaTeX engine.
pub open spec fn gives_katex(value: Value) -> bool {
    &&& flag_at(value, "macros"@) is Some
    &&& flag_at(value, "auto_render"@) is Some
    &&& flag_at(value, "mhchem"@) is Some
    &&& flag_at(value, "throw_on_error"@) is Some
    &&& text_at(value, "error_color"@) is Some
}

/// Reads the settings of the KaTeX engine; every key is required.
pub fn read_katex(value: &Value) -> (r: Option<KatexConfig>)
    ensures
        match r {
            Some(c) => is_katex_of(c, *value),
            None => !gives_katex(*value),
        },
{
    let macros = read_flag(value, "macros")?;
    let auto_render = read_flag(value, "auto_render")?;
    let mhchem = read_flag(value, "mhchem")?;
    let throw_on_error = read_flag(value, "throw_on_error")?;
    let error_color = read_text(value, "error_color")?;
    Some(KatexConfig { macros, auto_render, mhchem, throw_on_error, error_color })
}

/// Whether `c` holds the settings of the MathJax engine that `value` gives.
pub open spec fn is_mathjax_of(c: MathJaxConfig, value: Value) -> bool {
    &&& text_at(value, "cdn_url"@) == Some(c.cdn_url@)
    &&& flag_at(value, "svg"@) == Some(c.svg)
    &&& flag_at(value, "common_html"@) == Some(c.common_html)
    &&& flag_at(value, "chtml_preview"@) == Some(c.chtml_preview)
}

/// Whether `value` gives every setting of the MathJax engine.
pub open spec fn gives_mathjax(value: Value) -> bool {
    &&& text_at(value, "cdn_url"@) is Some
    &&& flag_at(value, "svg"@) is Some
    &&& flag_at(value, "common_html"@) is Some
    &&& flag_at(value, "chtml_preview"@) is Some
}

/// Reads the settings of the MathJax engine; every key is required.
pub fn read_mathjax(value: &Value) -> (r: Option<MathJaxConfig>)
    ensures
        match r {
            Some(c) => is_mathjax_of(c, *value),
            None => !gives_mathjax(*value),
        },
{
    let cdn_url = read_text(value, "cdn_url")?;
    let svg = read_flag(value, "svg")?;
    let common_html = read_flag(value, "common_html")?;
    let chtml_preview = read_flag(value, "chtml_preview")?;
    Some(MathJaxConfig { cdn_url, svg, common_html, chtml_preview })
}

/// Whether `c` holds the settings of the plugin that `value` gives.
pub open spec fn is_math_of(c: MathConfig, value: Value) -> bool {
    &&& text_at(value, "engine"@) == Some(c.engine@)
    &&& flag_at(value, "inline"@) == Some(c.inline)
    &&& flag_at(value, "block"@) == Some(c.block)
    &&& value_at(value, "katex"@) matches Some(settings) && is_katex_of(c.katex, settings)
    &&& value_at(value, "mathjax"@) matches Some(settings) && is_mathjax_of(c.mathjax, settings)
}

/// Whether `value` gives every setting of the plugin, those of both engines
/// included.
pub open spec fn gives_math(value: Value) -> bool {
    &&& text_at(value, "engine"@) is Some
    &&& flag_at(value, "inline"@) is Some
    &&& flag_at(value, "block"@) is Some
    &&& value_at(value, "katex"@) matches Some(settings) && gives_katex(settings)
    &&& value_at(value, "mathjax"@) matches Some(settings) && gives_mathjax(settings)
}

/// Reads the settings of the plugin; every key is required.
pub fn read_math_config(value: &Value) -> (r: Option<MathConfig>)
    ensures
        match r {
            Some(c) => is_math_of(c, *value),
            None => !gives_math(*value),
        },
{
    let engine = read_text(value, "engine")?;
    let inline = read_flag(value, "inline")?;
    let block = read_flag(value, "block")?;
    let katex = read_katex(read_value(value, "katex")?)?;
    let mathjax = read_mathjax(read_value(value, "mathjax")?)?;
    Some(MathConfig { engine, inline, block, katex, mathjax })
}

/// The math plugin.
#[derive(Clone, Debug)]
pub struct MathPlugin {
    name: String,
    version: String,
    description: String,
    config: MathConfig,
}

impl MathPlugin {
    /// The settings in use.
    pub closed spec fn settings(&self) -> MathConfig {
        self.config
    }

    /// A plugin that draws with KaTeX, inline and block formulas alike.
    pub fn new() -> (r: Self)
        ensures
            r.reported_name() == "math"@,
            r.reported_version() == "0.1.0"@,
            r.reported_description() == "数学公式渲染插件，支持 KaTeX 和 MathJax"@,
            r.settings().is_default(),
    {
        MathPlugin {
            name: "math".to_string(),
            version: "0.1.0".to_string(),
            description: "数学公式渲染插件，支持 KaTeX 和 MathJax".to_string(),
            config: MathConfig::default(),
        }
    }

    /// A plugin with the given settings.
    pub fn with_config(config: MathConfig) -> (r: Self)
        ensures
            r.reported_name() == "math"@,
            r.reported_version() == "0.1.0"@,
            r.reported_description() == "数学公式渲染插件，支持 KaTeX 和 MathJax"@,
            r.settings() == config,
    {
        MathPlugin {
            name: "math".to_string(),
            version: "0.1.0".to_string(),
            description: "数学公式渲染插件，支持 KaTeX 和 MathJax".to_string(),
            config,
        }
    }

    /// Marks the inline formulas of `content`.
    pub fn process_inline_math(&self, content: &str) -> (r: String)
        ensures
            r@ == formulas_marked(inline_pattern(), content@, self.settings().engine@, true),
    {
        mark_formulas("\\$([^\\$]+)\\$", content, self.config.engine.as_str(), true)
    }

    /// Marks the block formulas of `content`.
    pub fn process_block_math(&self, content: &str) -> (r: String)
        ensures
            r@ == formulas_marked(block_pattern(), content@, self.settings().engine@, false),
    {
        mark_formulas("\\$\\$([\\s\\S]+?)\\$\\$", content, self.config.engine.as_str(), false)
    }

    /// Brings the scripts of the engine into a page: into its head, and at the
    /// end of its body.
    pub fn add_dependencies(&self, content: &str) -> (r: String)
        ensures
            r@ == with_dependencies(self.settings(), content@),
    {
        let mut head = String::new();
        let mut body = String::new();
        if same_text(self.config.engine.as_str(), "katex") {
            head.append(
                "\n<link rel=\"stylesheet\" href=\"https://cdn.jsdelivr.net/npm/katex@0.16.9/dist/katex.min.css\">\n<script defer src=\"https://cdn.jsdelivr.net/npm/katex@0.16.9/dist/katex.min.js\"></script>\n",
            );
            if self.config.katex.auto_render {
                head.append(
                    "<script defer src=\"https://cdn.jsdelivr.net/npm/katex@0.16.9/dist/contrib/auto-render.min.js\"></script>",
                );
                body.append(
                    "\n<script>\ndocument.addEventListener(\"DOMContentLoaded\", function() {\n    renderMathInElement(document.body, {\n        delimiters: [\n            {left: \"$$\", right: \"$$\", display: true},\n            {left: \"$\", right: \"$\", display: false},\n            {left: \"\\\\(\", right: \"\\\\)\", display: false},\n            {left: \"\\\\[\", right: \"\\\\]\", display: true}\n        ],\n        throwOnError: ",
                );
                if self.config.katex.throw_on_error {
                    body.append("true");
                } else {
                    body.append("false");
                }
                body.append(",\n        errorColor: \"");
                body.append(self.config.katex.error_color.as_str());
                body.append("\",\n        macros: {}\n    });\n});\n</script>\n");
            }
            if self.config.katex.mhchem {
                head.append(
                    "<script defer src=\"https://cdn.jsdelivr.net/npm/katex@0.16.9/dist/contrib/mhchem.min.js\"></script>",
                );
            }
            assert(head@ =~= katex_head(self.config.katex));
            assert(body@ =~= katex_body(self.config.katex));
        } else if same_text(self.config.engine.as_str(), "mathjax") {
            head.append(
                "\n<script>\nMathJax = {\n    tex: {\n        inlineMath: [['$', '$'], ['\\\\(', '\\\\)']],\n        displayMath: [['$$', '$$'], ['\\\\[', '\\\\]']],\n        processEscapes: true,\n        processEnvironments: true\n    },\n    options: {\n        skipHtmlTags: ['script', 'noscript', 'style', 'textarea', 'pre']\n    }\n};\n</script>\n<script type=\"text/javascript\" id=\"MathJax-script\" async src=\"",
            );
            head.append(self.config.mathjax.cdn_url.as_str());
            head.append("\"></script>\n");
            assert(head@ =~= mathjax_head(self.config.mathjax));
        }
        let with_head = insert_before(content, "</head>", head.as_str());
        insert_before(with_head.as_str(), "</body>", body.as_str())
    }
}

impl Plugin for MathPlugin {
    open spec fn transformed(&self, content: Seq<char>, content_type: ContentType) -> Option<
        Seq<char>,
    > {
        Some(with_math(self.settings(), content, content_type))
    }

    closed spec fn reported_name(&self) -> Seq<char> {
        self.name@
    }

    closed spec fn reported_version(&self) -> Seq<char> {
        self.version@
    }

    closed spec fn reported_description(&self) -> Seq<char> {
        self.description@
    }

    /// The plugin has no assets of its own to inject.
    open spec fn offered_resources(&self) -> Seq<(Seq<char>, ResourceLocation)> {
        Seq::empty()
    }

    /// The plugin offers no template function.
    open spec fn offered_functions(&self) -> Seq<Seq<char>> {
        Seq::empty()
    }

    /// The plugin succeeds at every checkpoint.
    open spec fn hook_answer(&self, hook: PluginHook) -> Option<Seq<char>> {
        None
    }

    /// The plugin holds nothing that could fail to be released.
    open spec fn cleanup_answer(&self) -> Option<Seq<char>> {
        None
    }

    fn name(&self) -> (r: &str) {
        self.name.as_str()
    }

    fn version(&self) -> (r: &str) {
        self.version.as_str()
    }

    fn description(&self) -> (r: &str) {
        self.description.as_str()
    }

    /// Takes the settings from the entry `math` of the theme configuration,
    /// where the site lists the plugin and the entry is complete; else the
    /// settings stay as they are.
    fn init(&mut self, context: &PluginContext) -> (r: Result<(), PluginError>)
        ensures
            r is Ok,
            final(self).reported_name() == old(self).reported_name(),
            match settings_entry(*context, "math"@, "math"@) {
                Some(value) => if gives_math(value) {
                    is_math_of(final(self).settings(), value)
                } else {
                    final(self).settings() == old(self).settings()
                },
                None => final(self).settings() == old(self).settings(),
            },
    {
        match plugin_settings(context, "math", "math") {
            Some(value) => match read_math_config(value) {
                Some(config) => {
                    self.config = config;
                },
                None => {},
            },
            None => {},
        }
        Ok(())
    }

    fn execute_hook(&self, hook: &PluginHook) -> (r: Result<(), PluginError>)
        ensures
            r is Ok,
    {
        Ok(())
    }

    fn process_content(&self, content: &str, content_type: ContentType) -> (r: Result<
        String,
        PluginError,
    >) {
        match content_type {
            ContentType::HTML => {},
            _ => {
                return Ok(content.to_string());
            },
        }
        let mut processed = content.to_string();
        if self.config.inline {
            processed = self.process_inline_math(processed.as_str());
        }
        if self.config.block {
            processed = self.process_block_math(processed.as_str());
        }
        Ok(self.add_dependencies(processed.as_str()))
    }

    fn get_resources(&self) -> (r: Vec<(String, ResourceLocation)>)
        ensures
            r@.len() == 0,
    {
        let none: Vec<(String, ResourceLocation)> = Vec::new();
        assert(resource_views(none@) =~= Seq::empty());
        none
    }

    fn get_template_functions(&self) -> (r: Vec<String>)
        ensures
            r@.len() == 0,
    {
        let none: Vec<String> = Vec::new();
        assert(texts(none@) =~= Seq::<Seq<char>>::empty());
        none
    }

    fn call_template_function(&self, name: &str, args: &Vec<(String, Value)>) -> (r: Result<
        Value,
        String,
    >)
        ensures
            r matches Err(reason) && reason@ == name@,
    {
        Err(name.to_string())
    }

    fn cleanup(&self) -> (r: Result<(), PluginError>)
        ensures
            r is Ok,
    {
        Ok(())
    }
}

} // verus!
