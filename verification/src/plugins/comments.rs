//! The comments plugin: appends the widget of a comment system to every
//! content.

use vstd::prelude::*;
use vstd::string::*;
use crate::models::value::{
    flag_at, read_flag, read_text, read_value, text_at, value_at, Value,
};
use crate::plugins::error::{PluginError, PluginHook};
use crate::text::texts;
use crate::plugins::{resource_views, ContentType, Plugin, PluginContext, ResourceLocation};
use crate::text::same_text;

verus! {

/// The comment system in use.
#[derive(Clone, Copy, Debug, PartialEq, Eq, Structural)]
pub enum CommentSystem {
    Giscus,
    Disqus,
}

/// The settings of the `giscus` widget.
#[derive(Clone, Debug)]
pub struct GiscusConfig {
    pub repo: String,
    pub repo_owner: String,
    pub repo_id: String,
    pub category: String,
    pub category_id: String,
    pub mapping: String,
    pub reactions_enabled: bool,
    pub theme: String,
    pub lang: String,
}

/// The settings of the `disqus` widget.
#[derive(Clone, Debug)]
pub struct DisqusConfig {
    pub shortname: String,
    pub lang: String,
}

/// The settings of the plugin.
#[derive(Clone, Debug)]
pub struct CommentsConfig {
    pub enabled: bool,
    pub system: CommentSystem,
    pub giscus: Option<GiscusConfig>,
    pub disqus: Option<DisqusConfig>,
}

impl Default for CommentsConfig {
    fn default() -> (r: CommentsConfig)
        ensures
            r.enabled,
            r.system == CommentSystem::Giscus,
            r.giscus is None,
            r.disqus is None,
    {
        CommentsConfig { enabled: true, system: CommentSystem::Giscus, giscus: None, disqus: None }
    }
}

/// The text of a flag.
pub open spec fn flag_text(flag: bool) -> Seq<char> {
    if flag {
        "true"@
    } else {
        "false"@
    }
}

/// The markup of the `giscus` widget.
pub open spec fn giscus_html(config: GiscusConfig) -> Seq<char> {
    "<script src=\"https://giscus.app/client.js\"\n                data-repo=\""@
        + config.repo_owner@ + "/"@ + config.repo@ + "\"\n                data-repo-id=\""@
        + config.repo_id@ + "\"\n                data-category=\""@ + config.category@
        + "\"\n                data-category-id=\""@ + config.category_id@
        + "\"\n                data-mapping=\""@ + config.mapping@
        + "\"\n                data-reactions-enabled=\""@ + flag_text(config.reactions_enabled)
        + "\"\n                data-theme=\""@ + config.theme@ + "\"\n                data-lang=\""@
        + config.lang@
        + "\"\n                crossorigin=\"anonymous\"\n                async>\n            </script>"@
}

/// The markup of the `disqus` widget.
pub open spec fn disqus_html(config: DisqusConfig) -> Seq<char> {
    "<div id=\"disqus_thread\"></div>\n            <script>\n                var disqus_config = function () {\n                    this.language = \""@
        + config.lang@
        + "\";\n                };\n                (function() {\n                    var d = document, s = d.createElement('script');\n                    s.src = 'https://"@
        + config.shortname@
        + ".disqus.com/embed.js';\n                    s.setAttribute('data-timestamp', +new Date());\n                    (d.head || d.body).appendChild(s);\n                })();\n            </script>"@
}

/// The widget that the settings call for, if they are complete.
pub open spec fn widget_html(config: CommentsConfig) -> Option<Seq<char>> {
    match config.system {
        CommentSystem::Giscus => match config.giscus {
            Some(giscus) => Some(giscus_html(giscus)),
            None => None,
        },
        CommentSystem::Disqus => match config.disqus {
            Some(disqus) => Some(disqus_html(disqus)),
            None => None,
        },
    }
}

/// The content with the widget after it, or the content alone where comments
/// are switched off or the settings are incomplete.
pub open spec fn with_comments(config: CommentsConfig, content: Seq<char>) -> Seq<char> {
    if !config.enabled {
        content
    } else {
        match widget_html(config) {
            Some(html) => content + "\n"@ + html,
            None => content,
        }
    }
}

/// Whether `c` holds the settings of the `giscus` widget that `value` gives.
pub open spec fn is_giscus_of(c: GiscusConfig, value: Value) -> bool {
    &&& text_at(value, "repo"@) == Some(c.repo@)
    &&& text_at(value, "repo_owner"@) == Some(c.repo_owner@)
    &&& text_at(value, "repo_id"@) == Some(c.repo_id@)
    &&& text_at(value, "category"@) == Some(c.category@)
    &&& text_at(value, "category_id"@) == Some(c.category_id@)
    &&& text_at(value, "mapping"@) == Some(c.mapping@)
    &&& flag_at(value, "reactions_enabled"@) == Some(c.reactions_enabled)
    &&& text_at(value, "theme"@) == Some(c.theme@)
    &&& text_at(value, "lang"@) == Some(c.lang@)
}

/// Whether `value` gives every setting of the `giscus` widget.
pub open spec fn gives_giscus(value: Value) -> bool {
    &&& text_at(value, "repo"@) is Some
    &&& text_at(value, "repo_owner"@) is Some
    &&& text_at(value, "repo_id"@) is Some
    &&& text_at(value, "category"@) is Some
    &&& text_at(value, "category_id"@) is Some
    &&& text_at(value, "mapping"@) is Some
    &&& flag_at(value, "reactions_enabled"@) is Some
    &&& text_at(value, "theme"@) is Some
    &&& text_at(value, "lang"@) is Some
}

/// Reads the settings of the `giscus` widget; every key is required.
pub fn read_giscus(value: &Value) -> (r: Option<GiscusConfig>)
    ensures
        match r {
            Some(c) => is_giscus_of(c, *value),
            None => !gives_giscus(*value),
        },
{
    let repo = read_text(value, "repo")?;
    let repo_owner = read_text(value, "repo_owner")?;
    let repo_id = read_text(value, "repo_id")?;
    let category = read_text(value, "category")?;
    let category_id = read_text(value, "category_id")?;
    let mapping = read_text(value, "mapping")?;
    let reactions_enabled = read_flag(value, "reactions_enabled")?;
    let theme = read_text(value, "theme")?;
    let lang = read_text(value, "lang")?;
    Some(
        GiscusConfig {
            repo,
            repo_owner,
            repo_id,
            category,
            category_id,
            mapping,
            reactions_enabled,
            theme,
            lang,
        },
    )
}

/// Whether `c` holds the settings of the `disqus` widget that `value` gives.
pub open spec fn is_disqus_of(c: DisqusConfig, value: Value) -> bool {
    text_at(value, "shortname"@) == Some(c.shortname@) && text_at(value, "lang"@) == Some(c.lang@)
}

/// Whether `value` gives every setting of the `disqus` widget.
pub open spec fn gives_disqus(value: Value) -> bool {
    text_at(value, "shortname"@) is Some && text_at(value, "lang"@) is Some
}

/// Reads the settings of the `disqus` widget; every key is required.
pub fn read_disqus(value: &Value) -> (r: Option<DisqusConfig>)
    ensures
        match r {
            Some(c) => is_disqus_of(c, *value),
            None => !gives_disqus(*value),
        },
{
    let shortname = read_text(value, "shortname")?;
    let lang = read_text(value, "lang")?;
    Some(DisqusConfig { shortname, lang })
}

/// The comment system that a text names, in lower case.
pub open spec fn system_named(name: Seq<char>) -> Option<CommentSystem> {
    if name == "giscus"@ {
        Some(CommentSystem::Giscus)
    } else if name == "disqus"@ {
        Some(CommentSystem::Disqus)
    } else {
        None
    }
}

/// The settings of a widget among the settings of the plugin: the entry
/// `key`, unless it is absent or null.
pub open spec fn widget_entry(value: Value, key: Seq<char>) -> Option<Value> {
    match value_at(value, key) {
        None => None,
        Some(Value::Null) => None,
        Some(settings) => Some(settings),
    }
}

/// Whether `value` gives the settings of the plugin: `enabled`, a known
/// `system`, and for each widget either nothing or every setting.
pub open spec fn gives_comments(value: Value) -> bool {
    &&& flag_at(value, "enabled"@) is Some
    &&& text_at(value, "system"@) matches Some(name) && system_named(name) is Some
    &&& (widget_entry(value, "giscus"@) matches Some(settings) ==> gives_giscus(settings))
    &&& (widget_entry(value, "disqus"@) matches Some(settings) ==> gives_disqus(settings))
}

/// Whether `c` holds the settings of the plugin that `value` gives.
pub open spec fn is_comments_of(c: CommentsConfig, value: Value) -> bool {
    &&& flag_at(value, "enabled"@) == Some(c.enabled)
    &&& text_at(value, "system"@) matches Some(name) && system_named(name) == Some(c.system)
    &&& match (widget_entry(value, "giscus"@), c.giscus) {
        (Some(settings), Some(giscus)) => is_giscus_of(giscus, settings),
        (None, None) => true,
        _ => false,
    }
    &&& match (widget_entry(value, "disqus"@), c.disqus) {
        (Some(settings), Some(disqus)) => is_disqus_of(disqus, settings),
        (None, None) => true,
        _ => false,
    }
}

/// Reads the settings of the plugin. `enabled` and `system` are required;
/// the settings of a widget may be absent or null, but where they are there
/// they have to be complete.
pub fn read_comments_config(value: &Value) -> (r: Option<CommentsConfig>)
    ensures
        match r {
            Some(c) => is_comments_of(c, *value),
            None => !gives_comments(*value),
        },
{
    proof {
        reveal_strlit("giscus");
        reveal_strlit("disqus");
    }
    let enabled = read_flag(value, "enabled")?;
    let name = read_text(value, "system")?;
    let system = if same_text(name.as_str(), "giscus") {
        CommentSystem::Giscus
    } else if same_text(name.as_str(), "disqus") {
        CommentSystem::Disqus
    } else {
        return None;
    };
    let giscus = match read_value(value, "giscus") {
        None => None,
        Some(Value::Null) => None,
        Some(settings) => Some(read_giscus(settings)?),
    };
    let disqus = match read_value(value, "disqus") {
        None => None,
        Some(Value::Null) => None,
        Some(settings) => Some(read_disqus(settings)?),
    };
    Some(CommentsConfig { enabled, system, giscus, disqus })
}

/// The comments plugin.
#[derive(Clone, Debug)]
pub struct CommentsPlugin {
    name: String,
    version: String,
    description: String,
    config: CommentsConfig,
}

impl CommentsPlugin {
    /// The settings in use.
    pub closed spec fn settings(&self) -> CommentsConfig {
        self.config
    }

    /// A plugin with comments switched on and no widget set up.
    pub fn new() -> (r: Self)
        ensures
            r.reported_name() == "comments"@,
            r.reported_version() == "0.1.0"@,
            r.reported_description() == "评论系统插件，支持 Giscus 和 Disqus"@,
            r.settings().enabled,
            r.settings().system == CommentSystem::Giscus,
            r.settings().giscus is None,
            r.settings().disqus is None,
    {
        CommentsPlugin {
            name: "comments".to_string(),
            version: "0.1.0".to_string(),
            description: "评论系统插件，支持 Giscus 和 Disqus".to_string(),
            config: CommentsConfig::default(),
        }
    }

    /// A plugin with the given settings.
    pub fn with_config(config: CommentsConfig) -> (r: Self)
        ensures
            r.reported_name() == "comments"@,
            r.reported_version() == "0.1.0"@,
            r.reported_description() == "评论系统插件，支持 Giscus 和 Disqus"@,
            r.settings() == config,
    {
        CommentsPlugin {
            name: "comments".to_string(),
            version: "0.1.0".to_string(),
            description: "评论系统插件，支持 Giscus 和 Disqus".to_string(),
            config,
        }
    }

    /// Writes the markup of the `giscus` widget.
    pub fn generate_giscus_html(&self, config: &GiscusConfig) -> (r: String)
        ensures
            r@ == giscus_html(*config),
    {
        let mut out = String::new();
        out.append("<script src=\"https://giscus.app/client.js\"\n                data-repo=\"");
        out.append(config.repo_owner.as_str());
        out.append("/");
        out.append(config.repo.as_str());
        out.append("\"\n                data-repo-id=\"");
        out.append(config.repo_id.as_str());
        out.append("\"\n                data-category=\"");
        out.append(config.category.as_str());
        out.append("\"\n                data-category-id=\"");
        out.append(config.category_id.as_str());
        out.append("\"\n                data-mapping=\"");
        out.append(config.mapping.as_str());
        out.append("\"\n                data-reactions-enabled=\"");
        if config.reactions_enabled {
            out.append("true");
        } else {
            out.append("false");
        }
        out.append("\"\n                data-theme=\"");
        out.append(config.theme.as_str());
        out.append("\"\n                data-lang=\"");
        out.append(config.lang.as_str());
        out.append(
            "\"\n                crossorigin=\"anonymous\"\n                async>\n            </script>",
        );
        assert(out@ =~= giscus_html(*config));
        out
    }

    /// Writes the markup of the `disqus` widget.
    pub fn generate_disqus_html(&self, config: &DisqusConfig) -> (r: String)
        ensures
            r@ == disqus_html(*config),
    {
        let mut out = String::new();
        out.append(
            "<div id=\"disqus_thread\"></div>\n            <script>\n                var disqus_config = function () {\n                    this.language = \"",
        );
        out.append(config.lang.as_str());
        out.append(
            "\";\n                };\n                (function() {\n                    var d = document, s = d.createElement('script');\n                    s.src = 'https://",
        );
        out.append(config.shortname.as_str());
        out.append(
            ".disqus.com/embed.js';\n                    s.setAttribute('data-timestamp', +new Date());\n                    (d.head || d.body).appendChild(s);\n                })();\n            </script>",
        );
        assert(out@ =~= disqus_html(*config));
        out
    }
}

/// Tells whether `names` holds `name`.
pub fn lists_name(names: &Vec<String>, name: &str) -> (r: bool)
    ensures
        r == exists|k: int| 0 <= k < names@.len() && (#[trigger] names@[k])@ == name@,
{
    let mut i: usize = 0;
    while i < names.len()
        invariant
            i <= names.len(),
            forall|k: int| 0 <= k < i ==> (#[trigger] names@[k])@ != name@,
        decreases names.len() - i,
    {
        if same_text(names[i].as_str(), name) {
            return true;
        }
        i = i + 1;
    }
    false
}

/// The settings that a site gives a plugin: the entry `key` of the theme
/// configuration, for a site whose plugin list names the plugin.
pub open spec fn settings_entry(context: PluginContext, plugin: Seq<char>, key: Seq<char>) -> Option<
    Value,
> {
    match (context.config.plugins, context.config.theme_config) {
        (Some(plugins), Some(theme)) => if exists|k: int|
            0 <= k < plugins@.len() && (#[trigger] plugins@[k])@ == plugin {
            value_at(theme, key)
        } else {
            None
        },
        _ => None,
    }
}

/// Finds the settings that a site gives a plugin.
pub fn plugin_settings<'a>(context: &'a PluginContext, plugin: &str, key: &str) -> (r: Option<
    &'a Value,
>)
    ensures
        match r {
            Some(v) => settings_entry(*context, plugin@, key@) == Some(*v),
            None => settings_entry(*context, plugin@, key@) is None,
        },
{
    match &context.config.plugins {
        Some(plugins) => {
            if lists_name(plugins, plugin) {
                match &context.config.theme_config {
                    Some(theme) => read_value(theme, key),
                    None => None,
                }
            } else {
                None
            }
        },
        None => None,
    }
}

impl Plugin for CommentsPlugin {
    open spec fn transformed(&self, content: Seq<char>, content_type: ContentType) -> Option<
        Seq<char>,
    > {
        Some(with_comments(self.settings(), content))
    }

    closed spec fn reported_name(&self) -> Seq<char> {
        self.name@
    }

    closed spec fn reported_version(&self) -> Seq<char> {
        self.version@
    }

    closed spec fn reported_description(&self) -> Seq<char> {
        self.description@
    }

    /// The plugin has no assets of its own to inject.
    open spec fn offered_resources(&self) -> Seq<(Seq<char>, ResourceLocation)> {
        Seq::empty()
    }

    /// The plugin offers no template function.
    open spec fn offered_functions(&self) -> Seq<Seq<char>> {
        Seq::empty()
    }

    /// The plugin succeeds at every checkpoint.
    open spec fn hook_answer(&self, hook: PluginHook) -> Option<Seq<char>> {
        None
    }

    /// The plugin holds nothing that could fail to be released.
    open spec fn cleanup_answer(&self) -> Option<Seq<char>> {
        None
    }

    fn name(&self) -> (r: &str) {
        self.name.as_str()
    }

    fn version(&self) -> (r: &str) {
        self.version.as_str()
    }

    fn description(&self) -> (r: &str) {
        self.description.as_str()
    }

    /// Takes the settings from the entry `comments` of the theme
    /// configuration, where the site lists the plugin and the entry is
    /// complete; else the settings stay as they are.
    fn init(&mut self, context: &PluginContext) -> (r: Result<(), PluginError>)
        ensures
            r is Ok,
            final(self).reported_name() == old(self).reported_name(),
            match settings_entry(*context, "comments"@, "comments"@) {
                Some(value) => if gives_comments(value) {
                    is_comments_of(final(self).settings(), value)
                } else {
                    final(self).settings() == old(self).settings()
                },
                None => final(self).settings() == old(self).settings(),
            },
    {
        match plugin_settings(context, "comments", "comments") {
            Some(value) => match read_comments_config(value) {
                Some(config) => {
                    self.config = config;
                },
                None => {},
            },
            None => {},
        }
        Ok(())
    }

    fn execute_hook(&self, hook: &PluginHook) -> (r: Result<(), PluginError>)
        ensures
            r is Ok,
    {
        Ok(())
    }

    fn process_content(&self, content: &str, content_type: ContentType) -> (r: Result<
        String,
        PluginError,
    >) {
        if !self.config.enabled {
            return Ok(content.to_string());
        }
        let widget = match self.config.system {
            CommentSystem::Giscus => match &self.config.giscus {
                Some(giscus) => Some(self.generate_giscus_html(giscus)),
                None => None,
            },
            CommentSystem::Disqus => match &self.config.disqus {
                Some(disqus) => Some(self.generate_disqus_html(disqus)),
                None => None,
            },
        };
        match widget {
            Some(html) => {
                let mut out = content.to_string();
                out.append("\n");
                out.append(html.as_str());
                Ok(out)
            },
            None => Ok(content.to_string()),
        }
    }

    fn get_resources(&self) -> (r: Vec<(String, ResourceLocation)>)
        ensures
            r@.len() == 0,
    {
        let none: Vec<(String, ResourceLocation)> = Vec::new();
        assert(resource_views(none@) =~= Seq::empty());
        none
    }

    fn get_template_functions(&self) -> (r: Vec<String>)
        ensures
            r@.len() == 0,
    {
        let none: Vec<String> = Vec::new();
        assert(texts(none@) =~= Seq::<Seq<char>>::empty());
        none
    }

    fn call_template_function(&self, name: &str, args: &Vec<(String, Value)>) -> (r: Result<
        Value,
        String,
    >)
        ensures
            r matches Err(reason) && reason@ == name@,
    {
        Err(name.to_string())
    }

    fn cleanup(&self) -> (r: Result<(), PluginError>)
        ensures
            r is Ok,
    {
        Ok(())
    }
}

} // verus!
