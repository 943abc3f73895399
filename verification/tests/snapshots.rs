use rust_hexo::generation::classify::{classify_checked, listed_total};
use rust_hexo::generation::content::{load_documents, SourceFile};
use rust_hexo::generation::site::teardown;
use rust_hexo::generation::Engine;
use rust_hexo::models::config::{copy_pairs, copy_texts, FeedConfig, HighlightConfig};
use rust_hexo::models::types::{copy_all, copy_text, Category, Tag};
use rust_hexo::models::value::copy_entries;
use rust_hexo::models::{Config, Number, Post, Timestamp, Value};
use rust_hexo::plugins::{
    CommentsPlugin, ContentType, ExamplePlugin, MathPlugin, Plugin, PluginContext, PluginError,
    PluginHook, PluginManager, PluginRecord, ResourceLocation, SearchPlugin,
    SyntaxHighlightPlugin, TocPlugin, WordCountPlugin,
};

fn text(s: &str) -> Value {
    Value::String(s.to_string())
}

fn noon(day: u32) -> Timestamp {
    Timestamp {
        seconds: 1_672_574_400 + 86_400 * (day as i64 - 1),
        nanos: 0,
        year: 2023,
        month: 1,
        day,
        hour: 12,
        minute: 0,
        second: 0,
    }
}

fn post(title: &str, day: u32, front_matter: Vec<(String, Value)>) -> Post {
    Post {
        title: title.to_string(),
        date: noon(day),
        updated: None,
        comments: true,
        layout: "post".to_string(),
        content: format!("<p>{}</p>", title),
        rendered_content: Some(format!("<p>{}!</p>", title)),
        source: format!("{}.md", title),
        path: format!("posts/{}.html", title),
        permalink: format!("posts/{}.html", title),
        excerpt: Some("short".to_string()),
        url: None,
        categories: vec!["one".to_string()],
        tags: Vec::new(),
        front_matter,
    }
}

struct Stuck;

impl Plugin for Stuck {
    fn transformed(
        &self,
        _content: vstd::seq::Seq<char>,
        _content_type: ContentType,
    ) -> Option<vstd::seq::Seq<char>> {
        unreachable!()
    }

    fn reported_name(&self) -> vstd::seq::Seq<char> {
        unreachable!()
    }

    fn reported_version(&self) -> vstd::seq::Seq<char> {
        unreachable!()
    }

    fn reported_description(&self) -> vstd::seq::Seq<char> {
        unreachable!()
    }

    fn offered_resources(&self) -> vstd::seq::Seq<(vstd::seq::Seq<char>, ResourceLocation)> {
        unreachable!()
    }

    fn offered_functions(&self) -> vstd::seq::Seq<vstd::seq::Seq<char>> {
        unreachable!()
    }

    fn hook_answer(&self, _hook: PluginHook) -> Option<vstd::seq::Seq<char>> {
        unreachable!()
    }

    fn cleanup_answer(&self) -> Option<vstd::seq::Seq<char>> {
        unreachable!()
    }

    fn name(&self) -> &str {
        "stuck"
    }

    fn version(&self) -> &str {
        "1.0.0"
    }

    fn description(&self) -> &str {
        "fails at every checkpoint"
    }

    fn init(&mut self, _context: &PluginContext) -> Result<(), PluginError> {
        Ok(())
    }

    fn execute_hook(&self, _hook: &PluginHook) -> Result<(), PluginError> {
        Err(PluginError::Other("no".to_string()))
    }

    fn process_content(&self, content: &str, _content_type: ContentType) -> Result<String, PluginError> {
        Ok(content.to_string())
    }

    fn get_resources(&self) -> Vec<(String, ResourceLocation)> {
        vec![
            ("stuck.css".to_string(), ResourceLocation::Head),
            ("stuck.js".to_string(), ResourceLocation::Footer),
            ("more.css".to_string(), ResourceLocation::Head),
        ]
    }

    fn get_template_functions(&self) -> Vec<String> {
        vec!["hold".to_string(), "word_count".to_string()]
    }

    fn call_template_function(
        &self,
        name: &str,
        _args: &Vec<(String, Value)>,
    ) -> Result<Value, String> {
        Err(name.to_string())
    }

    fn cleanup(&self) -> Result<(), PluginError> {
        Err(PluginError::Other("held".to_string()))
    }
}

#[test]
fn a_value_is_copied_in_depth() {
    let value = Value::Mapping(vec![
        ("title".to_string(), text("Home")),
        ("draft".to_string(), Value::Bool(false)),
        ("weight".to_string(), Value::Number(Number::Integer(-3))),
        ("big".to_string(), Value::Number(Number::Unsigned(u64::MAX))),
        ("none".to_string(), Value::Null),
        (
            "tags".to_string(),
            Value::Sequence(vec![text("a"), Value::Sequence(vec![text("b")]), Value::Null]),
        ),
        ("nested".to_string(), Value::Mapping(vec![("k".to_string(), text("v"))])),
    ]);
    let copy = value.duplicate();
    assert_eq!(format!("{:?}", copy), format!("{:?}", value));
    assert_eq!(format!("{:?}", value.clone()), format!("{:?}", value));
    assert_eq!(format!("{:?}", Value::Null.duplicate()), "Null");
}

#[test]
fn association_lists_and_optional_values_are_copied() {
    let entries = vec![("a".to_string(), text("x")), ("b".to_string(), Value::Bool(true))];
    assert_eq!(format!("{:?}", copy_entries(&entries)), format!("{:?}", entries));
    assert!(copy_entries(&Vec::new()).is_empty());
    assert_eq!(copy_text(&Some("t".to_string())), Some("t".to_string()));
    assert_eq!(copy_text(&None), None);
    assert_eq!(
        copy_texts(&Some(vec!["a".to_string(), "b".to_string()])),
        Some(vec!["a".to_string(), "b".to_string()])
    );
    assert_eq!(copy_texts(&None), None);
    let pairs = Some(vec![("k".to_string(), "v".to_string()), ("l".to_string(), "w".to_string())]);
    assert_eq!(copy_pairs(&pairs), pairs);
    assert_eq!(copy_pairs(&None), None);
}

#[test]
fn documents_and_taxonomies_are_copied() {
    let first = post("a", 1, vec![("tags".to_string(), Value::Sequence(vec![text("t")]))]);
    let copy = first.duplicate();
    assert_eq!(format!("{:?}", copy), format!("{:?}", first));
    let all = vec![first, post("b", 2, Vec::new())];
    let copies = copy_all(&all);
    assert_eq!(format!("{:?}", copies), format!("{:?}", all));
    let categories = vec![Category {
        name: "one".to_string(),
        slug: "one".to_string(),
        path: "categories/one".to_string(),
        parent: Some("root".to_string()),
        post_count: 2,
    }];
    assert_eq!(format!("{:?}", copy_all(&categories)), format!("{:?}", categories));
    let tags = vec![Tag {
        name: "t".to_string(),
        slug: "t".to_string(),
        path: "tags/t".to_string(),
        post_count: 1,
    }];
    assert_eq!(format!("{:?}", copy_all(&tags)), format!("{:?}", tags));
    assert!(copy_all(&Vec::<Post>::new()).is_empty());
}

#[test]
fn a_configuration_is_copied_field_by_field() {
    let mut config = Config::default();
    config.subtitle = Some("sub".to_string());
    config.skip_render = Some(vec!["a".to_string()]);
    config.titlecase = Some(true);
    config.filename_case = Some(2);
    config.per_page = Some(7);
    config.category_map = Some(vec![("k".to_string(), "v".to_string())]);
    config.theme_config = Some(Value::Mapping(vec![("math".to_string(), Value::Null)]));
    config.plugins = Some(vec!["math".to_string()]);
    config.highlight = Some(HighlightConfig {
        enable: true,
        line_number: false,
        auto_detect: true,
        tab_replace: Some("  ".to_string()),
    });
    config.feed = Some(FeedConfig {
        enable: true,
        rss: true,
        atom: false,
        path: None,
        limit: 5,
        content_type: "html".to_string(),
        order_by: "date".to_string(),
        icon: None,
        logo: Some("logo.png".to_string()),
    });
    assert_eq!(format!("{:?}", config.duplicate()), format!("{:?}", config));
    assert_eq!(format!("{:?}", Config::default().duplicate()), format!("{:?}", Config::default()));
}

#[test]
fn the_snapshot_does_not_follow_the_store() {
    let mut engine: Engine<ExamplePlugin> =
        Engine::new("/site".to_string(), Config::default()).unwrap();
    engine.posts = vec![post("a", 1, Vec::new())];
    let context = engine.create_plugin_context();
    assert_eq!(format!("{:?}", context.posts), format!("{:?}", engine.posts));
    assert_eq!(format!("{:?}", context.config), format!("{:?}", engine.config));
    assert!(context.current_post.is_none());
    engine.posts.push(post("b", 2, Vec::new()));
    engine.posts[0].title = "changed".to_string();
    assert_eq!(context.posts.len(), 1);
    assert_eq!(context.posts[0].title, "a");
    let site = engine.create_site_config().unwrap();
    assert_eq!(site.subtitle, None);
    assert_eq!(site.theme_config.map(|t| t.len()), Some(0));
}

#[test]
fn a_teardown_records_the_checkpoint_and_then_the_releases() {
    let mut host: PluginManager<dyn Plugin> =
        PluginManager::new("/site".to_string(), PluginContext::default());
    assert!(teardown(&host).is_empty());
    host.register("stuck", PluginRecord::builtin(Box::new(Stuck)));
    host.register("example", PluginRecord::builtin(Box::new(ExamplePlugin::new())));
    let warnings = teardown(&host);
    assert_eq!(warnings.len(), 2);
    match &warnings[0] {
        PluginError::HookError { plugin_name, hook_name, message } => {
            assert_eq!(plugin_name, "multiple");
            assert_eq!(hook_name.as_str(), PluginHook::Clean.name());
            assert!(message.contains("stuck"));
        }
        other => panic!("unexpected {:?}", other),
    }
    assert!(matches!(warnings[1], PluginError::CleanupError { .. }));
}

#[test]
fn every_source_with_front_matter_is_loaded_in_order() {
    let host: PluginManager<ExamplePlugin> =
        PluginManager::new("/site".to_string(), PluginContext::default());
    let source = |path: &str, content: &str| SourceFile {
        path: path.to_string(),
        content: content.to_string(),
        modified: noon(1),
    };
    let sources = vec![
        source("one.md", "---\ntitle: One\n---\nbody"),
        source("plain.md", "no block"),
        source("two.md", "---\ntitle: Two\n---\nbody"),
        source("empty.md", "---\n---\nbody"),
    ];
    let found = load_documents(&host, &sources, noon(2));
    let titles: Vec<&str> = found.iter().map(|p| p.title.as_str()).collect();
    assert_eq!(titles, vec!["One", "Two"]);
    assert!(load_documents(&host, &Vec::new(), noon(2)).is_empty());
}

#[test]
fn listed_names_are_counted_before_classifying() {
    let names = Value::Sequence(vec![text("a"), text("b")]);
    let mut posts = vec![
        post("x", 1, vec![("categories".to_string(), names), ("tags".to_string(), text("t"))]),
        post("y", 2, vec![("categories".to_string(), text("a"))]),
    ];
    assert_eq!(listed_total(&posts, "categories"), Some(3));
    assert_eq!(listed_total(&posts, "tags"), Some(1));
    assert_eq!(listed_total(&posts, "other"), Some(0));
    let (categories, tags) = classify_checked(&mut posts).unwrap();
    let counted: Vec<(&str, usize)> =
        categories.iter().map(|c| (c.name.as_str(), c.post_count)).collect();
    assert_eq!(counted, vec![("a", 2), ("b", 1)]);
    assert_eq!(tags.len(), 1);
    assert_eq!(posts[0].categories, vec!["a".to_string(), "b".to_string()]);
    assert_eq!(posts[1].tags, Vec::<String>::new());
}

#[test]
fn a_build_loads_classifies_and_emits() {
    let mut engine: Engine<ExamplePlugin> =
        Engine::new("/site".to_string(), Config::default()).unwrap();
    let sources = vec![
        SourceFile {
            path: "/site/source/_posts/first.md".to_string(),
            content: "---\ntitle: First\ndate: 2023-01-01 12:00:00\ntags: t\n---\nHello".to_string(),
            modified: noon(1),
        },
        SourceFile {
            path: "/site/source/_posts/second.md".to_string(),
            content: "---\ntitle: Second\ndate: 2023-01-02 12:00:00\n---\nWorld".to_string(),
            modified: noon(1),
        },
    ];
    let out = engine.generate(&sources, Vec::new(), &noon(3)).unwrap();
    let titles: Vec<&str> = engine.posts.iter().map(|p| p.title.as_str()).collect();
    assert_eq!(titles, vec!["Second", "First"]);
    assert_eq!(engine.tags.len(), 1);
    assert_eq!(out.post_pages.len(), 2);
    assert_eq!(out.index_pages.len(), 1);
    assert_eq!(out.tags.len(), 1);
    assert_eq!(out.rss.path, "/site/public/rss.xml");
    assert!(out.warning.is_none());
    assert_eq!(engine.plugin_manager.current_context().posts.len(), 2);

    let (again, warnings) = engine.run(&sources, Vec::new(), &noon(3)).unwrap();
    assert!(warnings.is_empty());
    assert_eq!(again.post_pages.len(), 2);
    assert_eq!(again.archives.len(), 1);
}

#[test]
fn assets_are_sorted_by_place_and_keep_their_order() {
    let all = vec![
        ("a.css".to_string(), ResourceLocation::Head),
        ("b.js".to_string(), ResourceLocation::Footer),
        ("c.css".to_string(), ResourceLocation::Head),
        ("d.js".to_string(), ResourceLocation::Footer),
    ];
    let sorted = rust_hexo::theme::renderer::sort_by_place(all);
    let head: Vec<&str> = sorted.head.iter().map(|r| r.0.as_str()).collect();
    let footer: Vec<&str> = sorted.footer.iter().map(|r| r.0.as_str()).collect();
    assert_eq!(head, vec!["a.css", "c.css"]);
    assert_eq!(footer, vec!["b.js", "d.js"]);
    assert!(sorted.head.iter().all(|r| matches!(r.1, ResourceLocation::Head)));
    let none = rust_hexo::theme::renderer::sort_by_place(Vec::new());
    assert!(none.head.is_empty() && none.footer.is_empty());
}

#[test]
fn the_host_gathers_what_plugins_offer() {
    let mut host: PluginManager<dyn Plugin> =
        PluginManager::new("/site".to_string(), PluginContext::default());
    assert!(host.register_template_functions().unwrap().is_empty());
    host.register("stuck", PluginRecord::builtin(Box::new(Stuck)));
    host.register("example", PluginRecord::builtin(Box::new(ExamplePlugin::new())));
    host.register(
        "word-count",
        PluginRecord::builtin(Box::new(WordCountPlugin::new())),
    );
    let resources = host.plugin_resources();
    let head: Vec<&str> = resources.head.iter().map(|r| r.0.as_str()).collect();
    let footer: Vec<&str> = resources.footer.iter().map(|r| r.0.as_str()).collect();
    assert_eq!(head, vec!["stuck.css", "more.css"]);
    assert_eq!(footer, vec!["stuck.js"]);

    let functions = host.register_template_functions().unwrap();
    let offers: Vec<(&str, usize)> =
        functions.iter().map(|f| (f.name.as_str(), f.plugin)).collect();
    assert_eq!(
        offers,
        vec![("hold", 0), ("word_count", 0), ("word_count", 2), ("reading_time", 2)]
    );
    assert_eq!(PluginManager::<dyn Plugin>::function_in_force(&functions, "word_count"), Some(2));
    assert_eq!(PluginManager::<dyn Plugin>::function_in_force(&functions, "hold"), Some(0));
    assert_eq!(PluginManager::<dyn Plugin>::function_in_force(&functions, "none"), None);

    let args = vec![("content".to_string(), text("a b c"))];
    match host.call_template_function("word_count", &args) {
        Some(Ok(Value::Number(Number::Integer(n)))) => assert_eq!(n, 3),
        other => panic!("unexpected {:?}", other),
    }
    match host.call_template_function("hold", &args) {
        Some(Err(message)) => assert_eq!(message, "插件函数 'hold' 执行失败: hold"),
        other => panic!("unexpected {:?}", other),
    }
    assert!(host.call_template_function("none", &args).is_none());
}

#[test]
fn a_detached_copy_answers_for_itself_only() {
    let mut host: PluginManager<dyn Plugin> =
        PluginManager::new("/site".to_string(), PluginContext::default());
    host.register("stuck", PluginRecord::builtin(Box::new(Stuck)));
    let mut copies = host.get_all_plugins().unwrap();
    assert_eq!(copies.len(), 1);
    let copy = &mut copies[0];
    assert_eq!(copy.name(), "stuck");
    assert_eq!(copy.version(), "1.0.0");
    assert_eq!(copy.description(), "fails at every checkpoint");
    assert!(copy.init(&PluginContext::default()).is_ok());
    assert!(copy.execute_hook(&PluginHook::Clean).is_ok());
    assert!(copy.cleanup().is_ok());
    assert!(copy.get_resources().is_empty());
    assert!(copy.get_template_functions().is_empty());
    assert_eq!(copy.call_template_function("hold", &Vec::new()).unwrap_err(), "hold");
    assert_eq!(copy.process_content("x", ContentType::HTML).unwrap(), "x");
}

#[test]
fn built_in_plugins_say_what_they_are() {
    let plugins: Vec<Box<dyn Plugin>> = vec![
        Box::new(CommentsPlugin::new()),
        Box::new(ExamplePlugin::new()),
        Box::new(MathPlugin::new()),
        Box::new(SearchPlugin::new()),
        Box::new(SyntaxHighlightPlugin::new()),
        Box::new(TocPlugin::new()),
        Box::new(WordCountPlugin::new()),
    ];
    let names: Vec<&str> = plugins.iter().map(|p| p.name()).collect();
    assert_eq!(
        names,
        vec!["comments", "example", "math", "search", "syntax-highlight", "toc", "word-count"]
    );
    for plugin in &plugins {
        assert_eq!(plugin.version(), "0.1.0");
        assert!(!plugin.description().is_empty());
        assert!(plugin.get_resources().is_empty());
        assert_eq!(plugin.call_template_function("other", &Vec::new()).unwrap_err(), "other");
    }
    assert_eq!(plugins[1].description(), "一个示例插件，用于展示插件系统的功能");
    assert_eq!(plugins[5].description(), "自动生成文章目录");
    assert!(plugins[0].get_template_functions().is_empty());
    assert_eq!(
        plugins[6].get_template_functions(),
        vec!["word_count".to_string(), "reading_time".to_string()]
    );
}
