//! Plugin failures and the checkpoints at which plugins are notified.

use vstd::prelude::*;
use vstd::string::*;

verus! {

/// What can go wrong around a plugin.
#[derive(Clone, Debug)]
pub enum PluginError {
    VersionError { message: String },
    LoadError { message: String },
    InitError { plugin_name: String, message: String },
    HookError { plugin_name: String, hook_name: String, message: String },
    CleanupError { message: String },
    DependencyError { message: String },
    ConfigError { message: String },
    FunctionRegistrationError { message: String },
    FilterRegistrationError { message: String },
    ResourceError { message: String },
    ContentProcessingError { plugin_name: String, message: String },
    Other(String),
}

impl PluginError {
    /// The message shown to the user for this error.
    pub open spec fn text(&self) -> Seq<char> {
        match self {
            PluginError::VersionError { message } => "版本错误: "@ + message@,
            PluginError::LoadError { message } => "加载插件失败: "@ + message@,
            PluginError::InitError { plugin_name, message } => "初始化插件失败: "@
                + plugin_name@ + " - "@ + message@,
            PluginError::HookError { plugin_name, hook_name, message } => "执行钩子失败: 插件 "@
                + plugin_name@ + " 在执行 "@ + hook_name@ + " 时出错: "@ + message@,
            PluginError::CleanupError { message } => "清理插件失败: "@ + message@,
            PluginError::DependencyError { message } => "依赖错误: "@ + message@,
            PluginError::ConfigError { message } => "配置错误: "@ + message@,
            PluginError::FunctionRegistrationError { message } => "函数注册错误: "@ + message@,
            PluginError::FilterRegistrationError { message } => "过滤器注册错误: "@ + message@,
            PluginError::ResourceError { message } => "资源处理错误: "@ + message@,
            PluginError::ContentProcessingError { plugin_name, message } => "内容处理错误: "@
                + plugin_name@ + " - "@ + message@,
            PluginError::Other(message) => "其他错误: "@ + message@,
        }
    }

    /// Renders the error for the user.
    pub fn to_text(&self) -> (r: String)
        ensures
            r@ == self.text(),
    {
        match self {
            PluginError::VersionError { message } => prefixed("版本错误: ", message),
            PluginError::LoadError { message } => prefixed("加载插件失败: ", message),
            PluginError::InitError { plugin_name, message } => {
                let mut s = prefixed("初始化插件失败: ", plugin_name);
                s.append(" - ");
                s.append(message.as_str());
                s
            },
            PluginError::HookError { plugin_name, hook_name, message } => {
                let mut s = prefixed("执行钩子失败: 插件 ", plugin_name);
                s.append(" 在执行 ");
                s.append(hook_name.as_str());
                s.append(" 时出错: ");
                s.append(message.as_str());
                s
            },
            PluginError::CleanupError { message } => prefixed("清理插件失败: ", message),
            PluginError::DependencyError { message } => prefixed("依赖错误: ", message),
            PluginError::ConfigError { message } => prefixed("配置错误: ", message),
            PluginError::FunctionRegistrationError { message } => prefixed(
                "函数注册错误: ",
                message,
            ),
            PluginError::FilterRegistrationError { message } => prefixed(
                "过滤器注册错误: ",
                message,
            ),
            PluginError::ResourceError { message } => prefixed("资源处理错误: ", message),
            PluginError::ContentProcessingError { plugin_name, message } => {
                let mut s = prefixed("内容处理错误: ", plugin_name);
                s.append(" - ");
                s.append(message.as_str());
                s
            },
            PluginError::Other(message) => prefixed("其他错误: ", message),
        }
    }
}

fn prefixed(prefix: &str, body: &String) -> (r: String)
    ensures
        r@ == prefix@ + body@,
{
    let mut s = prefix.to_string();
    s.append(body.as_str());
    s
}

/// A checkpoint of the pipeline at which every registered plugin is notified.
#[derive(Clone, Copy, Debug, PartialEq, Eq, Structural)]
pub enum PluginHook {
    Init,
    BeforeGenerate,
    AfterGenerate,
    BeforeDeploy,
    AfterDeploy,
    NewPost,
    NewPage,
    Clean,
    ConfigChanged,
    BeforePostRender,
    AfterPostRender,
    BeforePageRender,
    AfterPageRender,
    BeforeRouteGenerate,
    AfterRouteGenerate,
    BeforeAssetProcess,
    AfterAssetProcess,
    BeforeServerStart,
    AfterServerStart,
    BeforeTemplateLoad,
    AfterTemplateLoad,
}

impl PluginHook {
    /// The name of the checkpoint, as it appears in messages.
    pub open spec fn name_text(&self) -> Seq<char> {
        match self {
            PluginHook::Init => "Init"@,
            PluginHook::BeforeGenerate => "BeforeGenerate"@,
            PluginHook::AfterGenerate => "AfterGenerate"@,
            PluginHook::BeforeDeploy => "BeforeDeploy"@,
            PluginHook::AfterDeploy => "AfterDeploy"@,
            PluginHook::NewPost => "NewPost"@,
            PluginHook::NewPage => "NewPage"@,
            PluginHook::Clean => "Clean"@,
            PluginHook::ConfigChanged => "ConfigChanged"@,
            PluginHook::BeforePostRender => "BeforePostRender"@,
            PluginHook::AfterPostRender => "AfterPostRender"@,
            PluginHook::BeforePageRender => "BeforePageRender"@,
            PluginHook::AfterPageRender => "AfterPageRender"@,
            PluginHook::BeforeRouteGenerate => "BeforeRouteGenerate"@,
            PluginHook::AfterRouteGenerate => "AfterRouteGenerate"@,
            PluginHook::BeforeAssetProcess => "BeforeAssetProcess"@,
            PluginHook::AfterAssetProcess => "AfterAssetProcess"@,
            PluginHook::BeforeServerStart => "BeforeServerStart"@,
            PluginHook::AfterServerStart => "AfterServerStart"@,
            PluginHook::BeforeTemplateLoad => "BeforeTemplateLoad"@,
            PluginHook::AfterTemplateLoad => "AfterTemplateLoad"@,
        }
    }

    /// The name of the checkpoint.
    pub fn name(&self) -> (r: &'static str)
        ensures
            r@ == self.name_text(),
    {
        match self {
            PluginHook::Init => "Init",
            PluginHook::BeforeGenerate => "BeforeGenerate",
            PluginHook::AfterGenerate => "AfterGenerate",
            PluginHook::BeforeDeploy => "BeforeDeploy",
            PluginHook::AfterDeploy => "AfterDeploy",
            PluginHook::NewPost => "NewPost",
            PluginHook::NewPage => "NewPage",
            PluginHook::Clean => "Clean",
            PluginHook::ConfigChanged => "ConfigChanged",
            PluginHook::BeforePostRender => "BeforePostRender",
            PluginHook::AfterPostRender => "AfterPostRender",
            PluginHook::BeforePageRender => "BeforePageRender",
            PluginHook::AfterPageRender => "AfterPageRender",
            PluginHook::BeforeRouteGenerate => "BeforeRouteGenerate",
            PluginHook::AfterRouteGenerate => "AfterRouteGenerate",
            PluginHook::BeforeAssetProcess => "BeforeAssetProcess",
            PluginHook::AfterAssetProcess => "AfterAssetProcess",
            PluginHook::BeforeServerStart => "BeforeServerStart",
            PluginHook::AfterServerStart => "AfterServerStart",
            PluginHook::BeforeTemplateLoad => "BeforeTemplateLoad",
            PluginHook::AfterTemplateLoad => "AfterTemplateLoad",
        }
    }
}

} // verus!
