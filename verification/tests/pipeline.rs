use rust_hexo::generation::content::{load_document, SourceFile};
use rust_hexo::generation::feeds::hold;
use rust_hexo::generation::Engine;
use rust_hexo::models::{Config, Post, Timestamp, Value};
use rust_hexo::plugins::dispatch::{aggregate, note_answer};
use rust_hexo::plugins::loader::order_candidates;
use rust_hexo::generation::engine::Stage;
use rust_hexo::plugins::{
    Call, ContentType, ExamplePlugin, LoadAttempt, LoadOutcome, Plugin, PluginContext,
    PluginError, PluginFailure, PluginHook, PluginManager, PluginRecord, ResourceLocation,
};
use rust_hexo::text::is_whitespace;

fn noon(day: u32) -> Timestamp {
    Timestamp {
        seconds: 1_672_574_400 + 86_400 * (day as i64 - 1),
        nanos: 0,
        year: 2023,
        month: 1,
        day,
        hour: 12,
        minute: 0,
        second: 0,
    }
}

fn source(name: &str, content: &str) -> SourceFile {
    SourceFile {
        path: format!("/site/source/_posts/{}", name),
        content: content.to_string(),
        modified: noon(1),
    }
}

fn titles(posts: &[Post]) -> Vec<&str> {
    posts.iter().map(|p| p.title.as_str()).collect()
}

#[test]
fn the_store_is_rebuilt_on_every_load() {
    let mut engine: Engine<ExamplePlugin> =
        Engine::new("/site".to_string(), Config::default()).unwrap();
    let first = vec![
        source("a.md", "---\ntitle: A\ndate: 2023-01-01 12:00:00\ncategories: x\n---\nbody"),
        source("b.md", "---\ntitle: B\ndate: 2023-01-02 12:00:00\n---\nbody"),
    ];
    assert!(engine.load_posts_and_pages(&first, noon(3)).is_ok());
    assert_eq!(titles(&engine.posts), vec!["B", "A"]);
    assert!(engine.process_categories_and_tags().is_ok());
    assert_eq!(engine.posts[1].categories, vec!["x".to_string()]);

    let second = vec![source("b.md", "---\ntitle: B\ndate: 2023-01-02 12:00:00\n---\nbody")];
    assert!(engine.load_posts_and_pages(&second, noon(3)).is_ok());
    assert_eq!(titles(&engine.posts), vec!["B"]);
    assert!(engine.posts.iter().all(|p| p.categories.is_empty() && p.tags.is_empty()));
    assert!(engine.posts.iter().all(|p| p.rendered_content.is_some()));
    assert_eq!(engine.posts[0].source, "/site/source/_posts/b.md");

    assert!(engine.load_posts_and_pages(&Vec::new(), noon(3)).is_ok());
    assert!(engine.posts.is_empty());
    let no_block = vec![source("c.md", "plain text")];
    assert!(engine.load_posts_and_pages(&no_block, noon(3)).is_ok());
    assert!(engine.posts.is_empty());
}

#[test]
fn plugins_are_taken_in_at_the_top_of_a_build_where_due() {
    let attempt = |file: &str| LoadAttempt::<ExamplePlugin> {
        file_name: file.to_string(),
        outcome: LoadOutcome::Loaded(PluginRecord::builtin(Box::new(ExamplePlugin::new()))),
    };
    let mut engine: Engine<ExamplePlugin> =
        Engine::new("/site".to_string(), Config::default()).unwrap();
    let sources = vec![source("a.md", "---\ntitle: A\ntags:\n  - t\n  - u\n---\nbody")];

    // A host that was never initialised takes the plugins in.
    assert!(engine.needs_plugin_reload());
    assert_eq!(engine.stages()[0], Stage::ReloadPlugins);
    let (out, warnings) = engine.run(&sources, vec![attempt("x.so")], &noon(2)).unwrap();
    assert!(warnings.is_empty());
    assert!(out.warning.is_none());
    assert_eq!(out.post_pages.len(), 1);
    assert_eq!(engine.plugin_manager.plugin_names(), vec!["example"]);
    assert!(engine.plugin_manager.is_initialized());
    assert_eq!(engine.plugin_manager.current_context().posts.len(), 1);
    assert_eq!(engine.plugin_manager.current_context().tags.len(), 2);

    // Once initialised, and without hot reload, a build leaves the plugins alone.
    assert!(!engine.needs_plugin_reload());
    assert_eq!(engine.stages()[0], Stage::Hook(PluginHook::BeforeGenerate));
    let mut empty: Engine<ExamplePlugin> =
        Engine::new("/site".to_string(), Config::default()).unwrap();
    assert!(empty.init(Vec::new()).is_ok());
    assert!(!empty.needs_plugin_reload());
    assert!(empty.generate(&sources, vec![attempt("x.so")], &noon(2)).is_ok());
    assert!(empty.plugin_manager.plugin_names().is_empty());

    // With hot reload the plugins are loaded anew on every build.
    assert!(empty.start_plugin_hot_reload().is_ok());
    assert!(empty.needs_plugin_reload());
    assert!(empty.generate(&sources, vec![attempt("x.so")], &noon(2)).is_ok());
    assert_eq!(empty.plugin_manager.plugin_names(), vec!["example"]);
    assert!(empty.needs_plugin_reload());
}

#[test]
fn a_build_under_watch_forgets_deleted_posts() {
    let mut engine: Engine<ExamplePlugin> =
        Engine::new("/site".to_string(), Config::default()).unwrap();
    assert!(engine.watch().is_ok());
    let sources = vec![source("a.md", "---\ntitle: A\ncategories: x\n---\nbody")];
    let out = engine.generate(&sources, Vec::new(), &noon(2)).unwrap();
    assert_eq!(out.post_pages.len(), 1);
    assert_eq!(out.categories.len(), 1);
    let out = engine.generate(&Vec::new(), Vec::new(), &noon(2)).unwrap();
    assert!(out.post_pages.is_empty());
    assert!(out.categories.is_empty());
    assert!(engine.posts.is_empty() && engine.categories.is_empty());
}

#[test]
fn candidates_are_tried_in_the_order_of_their_names() {
    let names: Vec<String> =
        ["b.so", "a.so", "c.dll", "a.so", "B.so", "a"].iter().map(|s| s.to_string()).collect();
    assert_eq!(order_candidates(&names), vec![4, 5, 1, 3, 0, 2]);
    let reversed: Vec<String> = ["c", "b", "a"].iter().map(|s| s.to_string()).collect();
    assert_eq!(order_candidates(&reversed), vec![2, 1, 0]);
    assert!(order_candidates(&Vec::new()).is_empty());
}

#[test]
fn answers_are_noted_one_by_one() {
    let mut failures: Vec<PluginFailure> = Vec::new();
    note_answer(&mut failures, "good", Ok(()));
    assert!(failures.is_empty());
    note_answer(&mut failures, "bad", Err(PluginError::Other("stuck".to_string())));
    note_answer(&mut failures, "fine", Ok(()));
    note_answer(&mut failures, "worse", Err(PluginError::Other("held".to_string())));
    let noted: Vec<(&str, &str)> =
        failures.iter().map(|f| (f.plugin_name.as_str(), f.message.as_str())).collect();
    assert_eq!(noted, vec![("bad", "其他错误: stuck"), ("worse", "其他错误: held")]);

    match aggregate(&Call::Checkpoint(PluginHook::Clean), &failures) {
        Err(PluginError::HookError { plugin_name, hook_name, message }) => {
            assert_eq!(plugin_name, "multiple");
            assert_eq!(hook_name, PluginHook::Clean.name());
            assert_eq!(
                message,
                format!(
                    "插件 bad 执行钩子 {} 失败: 其他错误: stuck; 插件 worse 执行钩子 {} 失败: 其他错误: held",
                    PluginHook::Clean.name(),
                    PluginHook::Clean.name()
                )
            );
        }
        other => panic!("unexpected {:?}", other),
    }
    match aggregate(&Call::Release, &failures) {
        Err(PluginError::CleanupError { message }) => {
            assert_eq!(message, "插件 bad 清理失败: 其他错误: stuck; 插件 worse 清理失败: 其他错误: held")
        }
        other => panic!("unexpected {:?}", other),
    }
    assert!(aggregate(&Call::Release, &Vec::new()).is_ok());
}

#[test]
fn white_space_is_told_by_code_point() {
    for c in [' ', '\t', '\n', '\r', '\u{0B}', '\u{0C}', '\u{85}', '\u{A0}', '\u{1680}'] {
        assert!(is_whitespace(c), "{:?}", c);
    }
    for c in ['\u{2000}', '\u{200A}', '\u{2028}', '\u{2029}', '\u{202F}', '\u{205F}', '\u{3000}'] {
        assert!(is_whitespace(c), "{:?}", c);
    }
    for c in ['a', '0', '\u{200B}', '\u{180E}', '\u{FEFF}', '\u{1F}', '\u{E}', '\u{8}'] {
        assert!(!is_whitespace(c), "{:?}", c);
    }
    let mut code: u32 = 0;
    while code <= 0x3100 {
        if let Some(c) = char::from_u32(code) {
            assert_eq!(is_whitespace(c), c.is_whitespace(), "{:x}", code);
        }
        code += 1;
    }
}

struct Banner;

impl Plugin for Banner {
    fn transformed(
        &self,
        _content: vstd::seq::Seq<char>,
        _content_type: ContentType,
    ) -> Option<vstd::seq::Seq<char>> {
        unreachable!()
    }

    fn reported_name(&self) -> vstd::seq::Seq<char> {
        unreachable!()
    }

    fn reported_version(&self) -> vstd::seq::Seq<char> {
        unreachable!()
    }

    fn reported_description(&self) -> vstd::seq::Seq<char> {
        unreachable!()
    }

    fn offered_resources(&self) -> vstd::seq::Seq<(vstd::seq::Seq<char>, ResourceLocation)> {
        unreachable!()
    }

    fn offered_functions(&self) -> vstd::seq::Seq<vstd::seq::Seq<char>> {
        unreachable!()
    }

    fn hook_answer(&self, _hook: PluginHook) -> Option<vstd::seq::Seq<char>> {
        unreachable!()
    }

    fn cleanup_answer(&self) -> Option<vstd::seq::Seq<char>> {
        unreachable!()
    }

    fn name(&self) -> &str {
        "banner"
    }

    fn version(&self) -> &str {
        "1.0.0"
    }

    fn description(&self) -> &str {
        "puts a banner before every text"
    }

    fn init(&mut self, _context: &PluginContext) -> Result<(), PluginError> {
        Ok(())
    }

    fn execute_hook(&self, hook: &PluginHook) -> Result<(), PluginError> {
        match hook {
            PluginHook::BeforeRouteGenerate => Err(PluginError::Other("late".to_string())),
            _ => Ok(()),
        }
    }

    fn process_content(&self, content: &str, content_type: ContentType) -> Result<String, PluginError> {
        match content_type {
            ContentType::Markdown => Ok(format!("banner\n\n{}", content)),
            _ => Ok(content.to_string()),
        }
    }

    fn get_resources(&self) -> Vec<(String, ResourceLocation)> {
        Vec::new()
    }

    fn get_template_functions(&self) -> Vec<String> {
        Vec::new()
    }

    fn call_template_function(
        &self,
        name: &str,
        _args: &Vec<(String, Value)>,
    ) -> Result<Value, String> {
        Err(name.to_string())
    }

    fn cleanup(&self) -> Result<(), PluginError> {
        Ok(())
    }
}

#[test]
fn front_matter_is_read_before_the_plugins_see_the_body() {
    let mut host: PluginManager<dyn Plugin> =
        PluginManager::new("/site".to_string(), PluginContext::default());
    host.register("banner", PluginRecord::builtin(Box::new(Banner)));
    let loaded =
        load_document(&host, &source("a.md", "---\ntitle: A\n---\nbody"), noon(2)).unwrap();
    assert_eq!(loaded.title, "A");
    assert_eq!(loaded.content, "<p>banner</p>\n<p>body</p>\n");
    assert!(load_document(&host, &source("b.md", "body"), noon(2)).is_none());
}

#[test]
fn a_run_reports_both_checkpoints_in_order() {
    let mut engine: Engine<dyn Plugin> =
        Engine::new("/site".to_string(), Config::default()).unwrap();
    let attempts = vec![LoadAttempt::<dyn Plugin> {
        file_name: "libbanner.so".to_string(),
        outcome: LoadOutcome::Loaded(PluginRecord::builtin(Box::new(Banner))),
    }];
    let sources = vec![source("a.md", "---\ntitle: A\n---\nbody")];
    let (out, warnings) = engine.run(&sources, attempts, &noon(2)).unwrap();
    assert_eq!(out.post_pages.len(), 1);
    assert!(out.warning.is_none());
    assert_eq!(warnings.len(), 1);
    match &warnings[0] {
        PluginError::HookError { plugin_name, hook_name, message } => {
            assert_eq!(plugin_name, "multiple");
            assert_eq!(hook_name.as_str(), PluginHook::BeforeRouteGenerate.name());
            assert!(message.contains("banner") && message.contains("late"));
        }
        other => panic!("unexpected {:?}", other),
    }
    let out = engine.generate(&sources, Vec::new(), &noon(2)).unwrap();
    assert!(out.warning.is_none());
    assert_eq!(engine.posts[0].content, "<p>banner</p>\n<p>body</p>\n");
}

#[test]
fn feeds_carry_instants_that_can_be_written() {
    assert_eq!(hold(1_672_574_400, 5), (1_672_574_400, 5));
    assert_eq!(hold(0, 0), (0, 0));
    assert_eq!(hold(i64::MAX, 0), (0, 0));
    assert_eq!(hold(1, 2_000_000_000), (0, 0));
}
