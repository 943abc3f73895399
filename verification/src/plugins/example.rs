//! A plugin that does nothing, to show what a plugin looks like.

use vstd::prelude::*;
use vstd::string::*;
use crate::models::value::Value;
use crate::plugins::error::{PluginError, PluginHook};
use crate::text::texts;
use crate::plugins::{resource_views, ContentType, Plugin, PluginContext, ResourceLocation};

verus! {

/// The example plugin. It answers every call with success and hands content
/// through unchanged.
#[derive(Clone, Debug)]
pub struct ExamplePlugin {
    name: String,
    version: String,
    description: String,
    author: String,
}

impl ExamplePlugin {
    pub fn new() -> (r: Self)
        ensures
            r.written_by() == "Rust-Hexo Team"@,
            r.reported_name() == "example"@,
            r.reported_version() == "0.1.0"@,
            r.reported_description() == "一个示例插件，用于展示插件系统的功能"@,
    {
        ExamplePlugin {
            name: "example".to_string(),
            version: "0.1.0".to_string(),
            description: "一个示例插件，用于展示插件系统的功能".to_string(),
            author: "Rust-Hexo Team".to_string(),
        }
    }

    /// Who wrote the plugin.
    pub closed spec fn written_by(&self) -> Seq<char> {
        self.author@
    }

    /// Who wrote the plugin.
    pub fn author(&self) -> (r: &str)
        ensures
            r@ == self.written_by(),
    {
        self.author.as_str()
    }
}

impl Plugin for ExamplePlugin {
    open spec fn transformed(&self, content: Seq<char>, content_type: ContentType) -> Option<
        Seq<char>,
    > {
        Some(content)
    }

    closed spec fn reported_name(&self) -> Seq<char> {
        self.name@
    }

    closed spec fn reported_version(&self) -> Seq<char> {
        self.version@
    }

    closed spec fn reported_description(&self) -> Seq<char> {
        self.description@
    }

    /// The plugin has no assets of its own to inject.
    open spec fn offered_resources(&self) -> Seq<(Seq<char>, ResourceLocation)> {
        Seq::empty()
    }

    /// The plugin offers no template function.
    open spec fn offered_functions(&self) -> Seq<Seq<char>> {
        Seq::empty()
    }

    /// The plugin succeeds at every checkpoint.
    open spec fn hook_answer(&self, hook: PluginHook) -> Option<Seq<char>> {
        None
    }

    /// The plugin holds nothing that could fail to be released.
    open spec fn cleanup_answer(&self) -> Option<Seq<char>> {
        None
    }

    fn name(&self) -> (r: &str) {
        self.name.as_str()
    }

    fn version(&self) -> (r: &str) {
        self.version.as_str()
    }

    fn description(&self) -> (r: &str) {
        self.description.as_str()
    }

    fn init(&mut self, context: &PluginContext) -> (r: Result<(), PluginError>)
        ensures
            r is Ok,
            *final(self) == *old(self),
    {
        Ok(())
    }

    fn execute_hook(&self, hook: &PluginHook) -> (r: Result<(), PluginError>)
        ensures
            r is Ok,
    {
        Ok(())
    }

    fn process_content(&self, content: &str, content_type: ContentType) -> (r: Result<
        String,
        PluginError,
    >) {
        Ok(content.to_string())
    }

    fn get_resources(&self) -> (r: Vec<(String, ResourceLocation)>)
        ensures
            r@.len() == 0,
    {
        let none: Vec<(String, ResourceLocation)> = Vec::new();
        assert(resource_views(none@) =~= Seq::empty());
        none
    }

    fn get_template_functions(&self) -> (r: Vec<String>)
        ensures
            r@.len() == 0,
    {
        let none: Vec<String> = Vec::new();
        assert(texts(none@) =~= Seq::<Seq<char>>::empty());
        none
    }

    fn call_template_function(&self, name: &str, args: &Vec<(String, Value)>) -> (r: Result<
        Value,
        String,
    >)
        ensures
            r matches Err(reason) && reason@ == name@,
    {
        Err(name.to_string())
    }

    fn cleanup(&self) -> (r: Result<(), PluginError>)
        ensures
            r is Ok,
    {
        Ok(())
    }
}

} // verus!
