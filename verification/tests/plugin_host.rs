use rust_hexo::models::Value;
use rust_hexo::plugins::loader::{
    complete_load, is_plugin_candidate, load_fault_error, validate_candidate,
};
use rust_hexo::plugins::{
    aggregate_cleanup_failures, aggregate_hook_failures, next_content, normalize_name,
    ContentType, ExamplePlugin, FileCheck, LoadAttempt, LoadFault, LoadOutcome, Platform, Plugin,
    PluginContext, PluginError, PluginFailure, PluginHook, PluginManager, PluginRecord,
    ResourceLocation,
};
use std::sync::atomic::{AtomicUsize, Ordering};
use std::sync::Arc;

struct Scripted {
    name: String,
    suffix: String,
    fail_content: bool,
    fail_hook: bool,
    fail_init: bool,
    fail_cleanup: bool,
    calls: Arc<AtomicUsize>,
}

impl Scripted {
    fn new(name: &str, suffix: &str) -> Scripted {
        Scripted {
            name: name.to_string(),
            suffix: suffix.to_string(),
            fail_content: false,
            fail_hook: false,
            fail_init: false,
            fail_cleanup: false,
            calls: Arc::new(AtomicUsize::new(0)),
        }
    }

    fn failing(name: &str) -> Scripted {
        let mut plugin = Scripted::new(name, "");
        plugin.fail_content = true;
        plugin.fail_hook = true;
        plugin.fail_cleanup = true;
        plugin
    }
}

impl Plugin for Scripted {
    fn transformed(
        &self,
        _content: vstd::seq::Seq<char>,
        _content_type: ContentType,
    ) -> Option<vstd::seq::Seq<char>> {
        unreachable!()
    }

    fn reported_name(&self) -> vstd::seq::Seq<char> {
        unreachable!()
    }

    fn reported_version(&self) -> vstd::seq::Seq<char> {
        unreachable!()
    }

    fn reported_description(&self) -> vstd::seq::Seq<char> {
        unreachable!()
    }

    fn offered_resources(&self) -> vstd::seq::Seq<(vstd::seq::Seq<char>, ResourceLocation)> {
        unreachable!()
    }

    fn offered_functions(&self) -> vstd::seq::Seq<vstd::seq::Seq<char>> {
        unreachable!()
    }

    fn hook_answer(&self, _hook: PluginHook) -> Option<vstd::seq::Seq<char>> {
        unreachable!()
    }

    fn cleanup_answer(&self) -> Option<vstd::seq::Seq<char>> {
        unreachable!()
    }

    fn name(&self) -> &str {
        &self.name
    }

    fn version(&self) -> &str {
        "1.0.0"
    }

    fn description(&self) -> &str {
        "scripted"
    }

    fn init(&mut self, _context: &PluginContext) -> Result<(), PluginError> {
        if self.fail_init {
            Err(PluginError::Other("no setup".to_string()))
        } else {
            Ok(())
        }
    }

    fn execute_hook(&self, _hook: &PluginHook) -> Result<(), PluginError> {
        self.calls.fetch_add(1, Ordering::SeqCst);
        if self.fail_hook {
            Err(PluginError::Other("boom".to_string()))
        } else {
            Ok(())
        }
    }

    fn process_content(
        &self,
        content: &str,
        _content_type: ContentType,
    ) -> Result<String, PluginError> {
        self.calls.fetch_add(1, Ordering::SeqCst);
        if self.fail_content {
            Err(PluginError::Other("cannot".to_string()))
        } else {
            Ok(format!("{}{}", content, self.suffix))
        }
    }

    fn get_resources(&self) -> Vec<(String, ResourceLocation)> {
        Vec::new()
    }

    fn get_template_functions(&self) -> Vec<String> {
        Vec::new()
    }

    fn call_template_function(
        &self,
        name: &str,
        _args: &Vec<(String, Value)>,
    ) -> Result<Value, String> {
        Err(name.to_string())
    }

    fn cleanup(&self) -> Result<(), PluginError> {
        if self.fail_cleanup {
            Err(PluginError::Other("stuck".to_string()))
        } else {
            Ok(())
        }
    }
}

fn host() -> PluginManager<dyn Plugin> {
    PluginManager::new("/site".to_string(), PluginContext::default())
}

fn record(plugin: Scripted) -> PluginRecord<dyn Plugin> {
    PluginRecord::builtin(Box::new(plugin))
}

#[test]
fn new_host_is_empty() {
    let host = host();
    assert_eq!(host.len(), 0);
    assert_eq!(host.plugins_directory(), "/site/plugins");
    assert!(!host.is_hot_reload_enabled());
    assert!(!host.is_initialized());
    assert_eq!(host.current_context().base_url, "/");
}

#[test]
fn transform_is_a_left_fold() {
    let mut host = host();
    host.register("first", record(Scripted::new("first", "-1")));
    host.register("second", record(Scripted::new("second", "-2")));
    let out = host.process_content("c", ContentType::Markdown).unwrap();
    assert_eq!(out, "c-1-2");
}

#[test]
fn transform_order_is_registration_order() {
    let mut host = host();
    host.register("second", record(Scripted::new("second", "-2")));
    host.register("first", record(Scripted::new("first", "-1")));
    let out = host.process_content("c", ContentType::HTML).unwrap();
    assert_eq!(out, "c-2-1");
}

#[test]
fn transform_without_plugins_is_identity() {
    let host = host();
    assert_eq!(host.process_content("text", ContentType::Plain).unwrap(), "text");
}

#[test]
fn failing_plugin_passes_its_input_on() {
    let mut host = host();
    host.register("first", record(Scripted::new("first", "-1")));
    host.register("broken", record(Scripted::failing("broken")));
    host.register("last", record(Scripted::new("last", "-3")));
    let out = host.process_content("c", ContentType::Markdown).unwrap();
    assert_eq!(out, "c-1-3");
}

#[test]
fn next_content_keeps_input_on_failure() {
    let kept = next_content("in".to_string(), Err(PluginError::Other("x".to_string())));
    assert_eq!(kept, "in");
    let replaced = next_content("in".to_string(), Ok("out".to_string()));
    assert_eq!(replaced, "out");
}

#[test]
fn example_plugin_hands_content_through() {
    let mut host: PluginManager<ExamplePlugin> =
        PluginManager::new("/site".to_string(), PluginContext::default());
    host.register("example", PluginRecord::builtin(Box::new(ExamplePlugin::new())));
    assert_eq!(host.process_content("same", ContentType::HTML).unwrap(), "same");
    assert_eq!(host.plugin_names(), vec!["example".to_string()]);
    let plugin = ExamplePlugin::new();
    assert_eq!(plugin.name(), "example");
    assert_eq!(plugin.version(), "0.1.0");
    assert_eq!(plugin.author(), "Rust-Hexo Team");
}

#[test]
fn register_normalizes_names() {
    let mut host = host();
    host.register("word_count", record(Scripted::new("word_count", "")));
    assert_eq!(host.plugin_names(), vec!["word-count".to_string()]);
    assert_eq!(host.position("word-count"), Some(0));
    assert_eq!(host.position("word_count"), None);
    assert_eq!(normalize_name("a_b_c"), "a-b-c");
    assert_eq!(normalize_name("plain"), "plain");
}

#[test]
fn last_registration_wins_and_keeps_its_place() {
    let mut host = host();
    assert!(host.register("a", record(Scripted::new("a", "-old"))).is_none());
    host.register("b", record(Scripted::new("b", "-b")));
    let displaced = host.register("a", record(Scripted::new("a", "-new")));
    assert!(displaced.is_some());
    assert_eq!(host.len(), 2);
    assert_eq!(host.plugin_names(), vec!["a".to_string(), "b".to_string()]);
    assert_eq!(host.process_content("c", ContentType::Markdown).unwrap(), "c-new-b");
}

#[test]
fn dispatch_hook_runs_every_plugin_and_names_the_failing_one() {
    let mut host = host();
    let failing = Scripted::failing("bad");
    let good = Scripted::new("good", "");
    let bad_calls = failing.calls.clone();
    let good_calls = good.calls.clone();
    host.register("bad", record(failing));
    host.register("good", record(good));

    let failures = host.dispatch_hook(&PluginHook::BeforeGenerate);
    assert_eq!(failures.len(), 1);
    assert_eq!(failures[0].plugin_name, "bad");
    assert_eq!(failures[0].message, "其他错误: boom");
    assert_eq!(bad_calls.load(Ordering::SeqCst), 1);
    assert_eq!(good_calls.load(Ordering::SeqCst), 1);

    let result = host.execute_hook(&PluginHook::BeforeGenerate);
    assert_eq!(good_calls.load(Ordering::SeqCst), 2);
    match result {
        Err(PluginError::HookError { plugin_name, hook_name, message }) => {
            assert_eq!(plugin_name, "multiple");
            assert_eq!(hook_name, "BeforeGenerate");
            assert_eq!(message, "插件 bad 执行钩子 BeforeGenerate 失败: 其他错误: boom");
            assert!(!message.contains("good"));
        }
        other => panic!("unexpected {:?}", other),
    }
}

#[test]
fn hook_without_failures_succeeds() {
    let mut host = host();
    host.register("good", record(Scripted::new("good", "")));
    assert!(host.execute_hook(&PluginHook::Clean).is_ok());
    assert!(host.cleanup().is_ok());
    assert!(aggregate_hook_failures(&PluginHook::Init, &Vec::new()).is_ok());
    assert!(aggregate_cleanup_failures(&Vec::new()).is_ok());
}

#[test]
fn hook_failures_are_joined_in_order() {
    let failures = vec![
        PluginFailure { plugin_name: "a".to_string(), message: "x".to_string() },
        PluginFailure { plugin_name: "b".to_string(), message: "y".to_string() },
    ];
    match aggregate_hook_failures(&PluginHook::AfterGenerate, &failures) {
        Err(PluginError::HookError { message, .. }) => assert_eq!(
            message,
            "插件 a 执行钩子 AfterGenerate 失败: x; 插件 b 执行钩子 AfterGenerate 失败: y"
        ),
        other => panic!("unexpected {:?}", other),
    }
    match aggregate_cleanup_failures(&failures) {
        Err(PluginError::CleanupError { message }) => {
            assert_eq!(message, "插件 a 清理失败: x; 插件 b 清理失败: y")
        }
        other => panic!("unexpected {:?}", other),
    }
}

#[test]
fn cleanup_collects_failures() {
    let mut host = host();
    host.register("bad", record(Scripted::failing("bad")));
    host.register("good", record(Scripted::new("good", "")));
    match host.cleanup() {
        Err(PluginError::CleanupError { message }) => {
            assert_eq!(message, "插件 bad 清理失败: 其他错误: stuck")
        }
        other => panic!("unexpected {:?}", other),
    }
}

#[test]
fn hot_reload_flag_can_be_set_and_cleared() {
    let mut host = host();
    assert!(host.start_hot_reload().is_ok());
    assert!(host.is_hot_reload_enabled());
    host.stop_hot_reload();
    assert!(!host.is_hot_reload_enabled());
}

#[test]
fn get_all_plugins_lists_name_version_description() {
    let mut host = host();
    host.register("one", record(Scripted::new("one", "")));
    let infos = host.get_all_plugins().unwrap();
    assert_eq!(infos.len(), 1);
    assert_eq!(infos[0].name(), "one");
    assert_eq!(infos[0].version(), "1.0.0");
    assert_eq!(infos[0].description(), "scripted");
    assert_eq!(infos[0].process_content("x", ContentType::Plain).unwrap(), "x");
}

#[test]
fn load_round_registers_valid_and_reports_invalid() {
    let mut host = host();
    let attempts: Vec<LoadAttempt<dyn Plugin>> = vec![
        LoadAttempt {
            file_name: "liba.so".to_string(),
            outcome: LoadOutcome::Loaded(record(Scripted::new("plugin_a", "-a"))),
        },
        LoadAttempt {
            file_name: "broken.so".to_string(),
            outcome: LoadOutcome::Failed(PluginError::LoadError {
                message: "bad magic".to_string(),
            }),
        },
        LoadAttempt { file_name: "notes.txt".to_string(), outcome: LoadOutcome::Skipped },
        LoadAttempt {
            file_name: "crash.so".to_string(),
            outcome: LoadOutcome::Panicked("abi".to_string()),
        },
        LoadAttempt {
            file_name: "libb.so".to_string(),
            outcome: LoadOutcome::Loaded(record(Scripted::new("b", "-b"))),
        },
        LoadAttempt { file_name: String::new(), outcome: LoadOutcome::Unreadable },
    ];
    let summary = host.load_plugins(attempts);
    assert_eq!(summary.loaded, 2);
    assert_eq!(summary.failed, 3);
    assert_eq!(summary.failures.len(), 2);
    assert_eq!(summary.failures[0].file_name, "broken.so");
    assert_eq!(summary.failures[0].reason, "加载插件失败: bad magic");
    assert_eq!(summary.failures[1].file_name, "crash.so");
    assert_eq!(summary.failures[1].reason, "严重错误 - abi");
    assert_eq!(host.plugin_names(), vec!["plugin-a".to_string(), "b".to_string()]);
    assert_eq!(host.process_content("c", ContentType::Markdown).unwrap(), "c-a-b");
}

#[test]
fn init_marks_the_host_as_initialized() {
    let mut host = host();
    assert!(!host.is_initialized());
    let summary = host.init(Vec::new()).unwrap();
    assert_eq!(summary.loaded, 0);
    assert_eq!(summary.failed, 0);
    assert!(host.is_initialized());
}

#[test]
fn plugins_are_registered_in_the_order_of_their_file_names() {
    let attempt = |file: &str, name: &str| LoadAttempt::<dyn Plugin> {
        file_name: file.to_string(),
        outcome: LoadOutcome::Loaded(record(Scripted::new(name, ""))),
    };
    let mut host = host();
    host.load_plugins(vec![
        attempt("libz.so", "last"),
        attempt("liba.so", "first"),
        attempt("libm.so", "middle"),
    ]);
    assert_eq!(host.plugin_names(), vec!["first", "middle", "last"]);

    let mut other = self::host();
    other.load_plugins(vec![
        attempt("libm.so", "middle"),
        attempt("libz.so", "last"),
        attempt("liba.so", "first"),
    ]);
    assert_eq!(other.plugin_names(), host.plugin_names());
}

#[test]
fn candidates_are_files_with_the_platform_suffix() {
    assert!(is_plugin_candidate("libmath.so", true, Platform::Linux));
    assert!(is_plugin_candidate("libmath.SO", true, Platform::Linux));
    assert!(!is_plugin_candidate("libmath.so", false, Platform::Linux));
    assert!(!is_plugin_candidate("libmath.dll", true, Platform::Linux));
    assert!(is_plugin_candidate("math.dll", true, Platform::Windows));
    assert!(is_plugin_candidate("libmath.dylib", true, Platform::MacOs));
    assert!(!is_plugin_candidate("libmath.so", true, Platform::Other));
    assert!(!is_plugin_candidate("README", true, Platform::Linux));
}

#[test]
fn broken_files_are_rejected_before_loading() {
    match validate_candidate("/p/a.so", &FileCheck::Missing) {
        Err(PluginError::LoadError { message }) => assert_eq!(message, "插件文件不存在: /p/a.so"),
        other => panic!("unexpected {:?}", other),
    }
    match validate_candidate("/p/a.so", &FileCheck::Size(0)) {
        Err(PluginError::LoadError { message }) => assert_eq!(message, "插件文件为空: /p/a.so"),
        other => panic!("unexpected {:?}", other),
    }
    match validate_candidate("/p/a.so", &FileCheck::Unreadable("denied".to_string())) {
        Err(PluginError::LoadError { message }) => {
            assert_eq!(message, "无法读取插件文件元数据: /p/a.so - denied")
        }
        other => panic!("unexpected {:?}", other),
    }
    assert!(validate_candidate("/p/a.so", &FileCheck::Size(1)).is_ok());
}

#[test]
fn faults_become_load_errors() {
    let cases = vec![
        (LoadFault::OpenFailed("no".to_string()), "无法加载库 /p/a.so: no"),
        (LoadFault::OpenPanicked, "加载库时发生严重错误，可能是ABI不兼容: /p/a.so"),
        (LoadFault::SymbolMissing("gone".to_string()), "找不到 create_plugin 函数: gone"),
        (LoadFault::SymbolPanicked, "解析 create_plugin 符号时发生严重错误: /p/a.so"),
        (LoadFault::FactoryPanicked, "调用 create_plugin 时发生严重错误: /p/a.so"),
    ];
    for (fault, expected) in cases {
        match load_fault_error("/p/a.so", &fault) {
            PluginError::LoadError { message } => assert_eq!(message, expected),
            other => panic!("unexpected {:?}", other),
        }
    }
}

#[test]
fn failed_init_discards_the_plugin() {
    let mut plugin = Scripted::new("shy", "");
    plugin.fail_init = true;
    match complete_load(record(plugin), &PluginContext::default()) {
        Err(PluginError::InitError { plugin_name, message }) => {
            assert_eq!(plugin_name, "shy");
            assert_eq!(message, "其他错误: no setup");
        }
        Ok(_) => panic!("the plugin must not be kept"),
        Err(other) => panic!("unexpected {:?}", other),
    }
    let kept = complete_load(record(Scripted::new("ok", "")), &PluginContext::default());
    assert!(kept.is_ok());
    assert!(!kept.ok().unwrap().has_library());
}

#[test]
fn error_texts() {
    let cases = vec![
        (PluginError::VersionError { message: "m".to_string() }, "版本错误: m"),
        (PluginError::LoadError { message: "m".to_string() }, "加载插件失败: m"),
        (
            PluginError::InitError { plugin_name: "p".to_string(), message: "m".to_string() },
            "初始化插件失败: p - m",
        ),
        (
            PluginError::HookError {
                plugin_name: "p".to_string(),
                hook_name: "Init".to_string(),
                message: "m".to_string(),
            },
            "执行钩子失败: 插件 p 在执行 Init 时出错: m",
        ),
        (PluginError::CleanupError { message: "m".to_string() }, "清理插件失败: m"),
        (PluginError::DependencyError { message: "m".to_string() }, "依赖错误: m"),
        (PluginError::ConfigError { message: "m".to_string() }, "配置错误: m"),
        (
            PluginError::FunctionRegistrationError { message: "m".to_string() },
            "函数注册错误: m",
        ),
        (PluginError::FilterRegistrationError { message: "m".to_string() }, "过滤器注册错误: m"),
        (PluginError::ResourceError { message: "m".to_string() }, "资源处理错误: m"),
        (
            PluginError::ContentProcessingError {
                plugin_name: "p".to_string(),
                message: "m".to_string(),
            },
            "内容处理错误: p - m",
        ),
        (PluginError::Other("m".to_string()), "其他错误: m"),
    ];
    for (error, expected) in cases {
        assert_eq!(error.to_text(), expected);
    }
    assert_eq!(PluginHook::BeforeRouteGenerate.name(), "BeforeRouteGenerate");
    assert_eq!(PluginHook::AfterTemplateLoad.name(), "AfterTemplateLoad");
}
