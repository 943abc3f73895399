use rust_hexo::models::{Number, Post, Timestamp, Value};
use rust_hexo::plugins::math::{replacement, Rewrite};
use rust_hexo::plugins::search::{build_index, SearchConfig};
use rust_hexo::plugins::syntax_highlight::SyntaxHighlightConfig;
use rust_hexo::plugins::templates::{bridge_answer, flatten, flatten_arguments};
use rust_hexo::plugins::toc::{find_headings, insert_toc, slugify, MarkdownEvent};
use rust_hexo::plugins::{
    ContentType, MathPlugin, Plugin, PluginContext, PluginManager, PluginRecord, ResourceLocation,
    SearchPlugin, SyntaxHighlightPlugin, TocConfig, TocPlugin, WordCountPlugin,
};

fn text(s: &str) -> Value {
    Value::String(s.to_string())
}

#[test]
fn headings_are_found_in_order() {
    let events = vec![
        MarkdownEvent::HeadingStart(1),
        MarkdownEvent::Text("Title".to_string()),
        MarkdownEvent::HeadingEnd(1),
        MarkdownEvent::Other,
        MarkdownEvent::Text("text".to_string()),
        MarkdownEvent::Other,
        MarkdownEvent::HeadingStart(2),
        MarkdownEvent::Text("Sub Part".to_string()),
        MarkdownEvent::HeadingEnd(2),
        MarkdownEvent::HeadingStart(4),
        MarkdownEvent::Text("Deep".to_string()),
        MarkdownEvent::HeadingEnd(4),
    ];
    let headings = find_headings(&events, 3);
    let found: Vec<(u8, &str)> = headings.iter().map(|h| (h.level, h.text.as_str())).collect();
    assert_eq!(found, vec![(1, "Title"), (2, "Sub Part")]);
}

#[test]
fn anchors_are_lower_case_with_hyphens() {
    assert_eq!(slugify("Sub Part"), "sub-part");
    assert_eq!(slugify("Hello, World!"), "hello-world");
    assert_eq!(slugify("a_b-c 1"), "a_b-c-1");
}

#[test]
fn table_of_contents_nests_by_level() {
    let plugin = TocPlugin::new();
    assert_eq!(plugin.name(), "toc");
    assert_eq!(plugin.author(), "Rust-Hexo Team");
    let toc = plugin.generate_toc("# Title\n\n## Sub Part\n");
    assert_eq!(
        toc,
        "<div class=\"toc\">\n<ul>\n<li><a href=\"#title\">Title</a></li>\n<ul>\n<li><a href=\"#sub-part\">Sub Part</a></li>\n</ul>\n</ul>\n</div>"
    );
    assert_eq!(plugin.generate_toc("no headings"), "<div class=\"toc\">\n<ul>\n</ul>\n</div>");
}

#[test]
fn table_goes_to_the_placeholder_or_the_top() {
    assert_eq!(insert_toc("a <!-- toc --> b", "<!-- toc -->", "T"), "a T b");
    assert_eq!(insert_toc("body", "<!-- toc -->", "T"), "T\n\nbody");
    let plugin = TocPlugin::with_config(TocConfig {
        max_level: 2,
        add_anchor: false,
        auto_insert: true,
        placeholder: "[toc]".to_string(),
    });
    let out = plugin.process_content("[toc]\n\n# One\n", ContentType::Markdown).unwrap();
    assert_eq!(
        out,
        "<div class=\"toc\">\n<ul>\n<li><a href=\"#one\">One</a></li>\n</ul>\n</div>\n\n# One\n"
    );
    let anchors = TocPlugin::new().add_anchors("# One Two\n\nplain\n");
    assert_eq!(anchors, "<h1 id=\"one-two\">One Two</h0>plain");
}

#[test]
fn matches_are_rewritten() {
    assert_eq!(
        MathPlugin::new().process_block_math("a $$x$$ b"),
        "a <div class=\"math block\">\\[x\\]</div> b"
    );
    let formula = Rewrite::Formula { engine: "katex".to_string(), inline: true };
    assert_eq!(replacement(&formula, "$x$", "x"), "<span class=\"math inline\">\\(x\\)</span>");
    assert_eq!(replacement(&Rewrite::Erase, "$x$", "x"), "");
}

#[test]
fn code_blocks_are_highlighted() {
    let plugin = SyntaxHighlightPlugin::new();
    assert_eq!(plugin.name(), "syntax-highlight");
    let out = plugin
        .process_content("before\n```rust\nlet x = 1;\n```\nafter\n", ContentType::Markdown)
        .unwrap();
    assert!(out.starts_with("before\n<div class=\"code-block\">\n<div class=\"code-language\">rust</div><pre><code class=\"hljs rust\"><table class=\"highlight-table\"><tbody><tr><td class=\"line-number\">1</td><td class=\"line-content\"><span class=\"highlight-source highlight-rust\">"));
    assert!(out.contains("</td></tr></tbody></table></code></pre><button class=\"copy-button\" onclick=\"copyCode(this)\">复制</button>"));
    assert!(out.ends_with("</script>\nafter\n"));
    assert_eq!(plugin.process_content("a\r\nb", ContentType::Markdown).unwrap(), "a\nb\n");
}

#[test]
fn plain_blocks_and_open_blocks() {
    let plugin = SyntaxHighlightPlugin::with_config(SyntaxHighlightConfig {
        theme: "x".to_string(),
        line_numbers: false,
        line_highlighting: false,
        copy_button: false,
        show_language: false,
        default_language: "text".to_string(),
    });
    let html = plugin.highlight_code("a < b\n", None).unwrap();
    assert_eq!(
        html,
        "<pre><code class=\"hljs text\"><span class=\"highlight-text highlight-plain\">a &lt; b\n</span></code></pre>"
    );
    assert_eq!(plugin.wrap_code(Some("c"), "X"), "<pre><code class=\"hljs c\">X</code></pre>");
    let open = plugin.process_content("```\n<b>\n", ContentType::Markdown).unwrap();
    assert_eq!(open, "<div class=\"code-block\">\n<pre><code>&lt;b&gt;\n</code></pre>\n</div>\n");
}

fn post(title: &str, day: u32, content: &str) -> Post {
    let date = Timestamp {
        seconds: 1_672_531_200 + 86_400 * (day as i64 - 1),
        nanos: 0,
        year: 2023,
        month: 1,
        day,
        hour: 0,
        minute: 0,
        second: 0,
    };
    Post {
        title: title.to_string(),
        date,
        updated: None,
        comments: true,
        layout: "post".to_string(),
        content: content.to_string(),
        rendered_content: None,
        source: String::new(),
        path: format!("posts/{}.html", title),
        permalink: String::new(),
        excerpt: None,
        url: None,
        categories: Vec::new(),
        tags: vec!["t".to_string()],
        front_matter: Vec::new(),
    }
}

#[test]
fn search_index_is_ordered_and_limited() {
    let posts = vec![post("b", 2, "bbb"), post("c", 3, "ccc"), post("a", 1, "aaaaaa")];
    let mut config = SearchConfig::default();
    let titles = |c: &SearchConfig| -> Vec<String> {
        build_index(c, &posts).into_iter().map(|i| i.title).collect()
    };
    assert_eq!(titles(&config), vec!["c", "b", "a"]);
    config.order_by = "-date".to_string();
    assert_eq!(titles(&config), vec!["a", "b", "c"]);
    config.order_by = "title".to_string();
    assert_eq!(titles(&config), vec!["a", "b", "c"]);
    config.order_by = "-title".to_string();
    assert_eq!(titles(&config), vec!["c", "b", "a"]);
    config.order_by = "none".to_string();
    assert_eq!(titles(&config), vec!["b", "c", "a"]);
    config.limit = 2;
    assert_eq!(titles(&config), vec!["b", "c"]);
    config.preview_length = 3;
    config.limit = 10;
    let index = build_index(&config, &posts);
    assert_eq!(index[2].content, "aaaaaa");
    assert_eq!(index[2].preview, "aaa...");
    assert_eq!(index[0].preview, "bbb");
    assert_eq!(index[0].date, "2023-01-02");
    assert_eq!(index[0].tags, vec!["t".to_string()]);
    config.full_content = false;
    assert_eq!(build_index(&config, &posts)[2].content, "aaa...");
}

#[test]
fn search_plugin_knows_its_files() {
    let mut plugin = SearchPlugin::new();
    assert_eq!(plugin.name(), "search");
    let mut context = PluginContext::default();
    context.output_dir = "/out".to_string();
    context.posts = vec![post("a", 1, "x")];
    assert!(plugin.init(&context).is_ok());
    assert_eq!(plugin.index_file(), "/out/search/search.json");
    assert_eq!(plugin.page_file(), "/out/search/index.html");
    assert_eq!(plugin.script_file(), "/out/search/search.js");
    assert_eq!(plugin.index_of_site().len(), 1);
    let page = plugin.generate_search_page().unwrap();
    assert!(page.starts_with("<!DOCTYPE html>\n<html>\n<head>"));
    assert!(page.contains("indexPath: '/search/search.json',"));
    assert!(page.contains(".search-container { max-width: 800px;"));
    assert!(page.ends_with("</html>"));
    assert!(plugin.generate_search_script().unwrap().contains("function filterAndScoreResults(index, query) {"));
    assert_eq!(plugin.process_content("x", ContentType::HTML).unwrap(), "x");
    assert_eq!(plugin.generate_search_index(&context.posts).unwrap().len(), 1);
}

#[test]
fn values_cross_the_boundary_flattened() {
    let nested = Value::Sequence(vec![
        text("a"),
        Value::Number(Number::Integer(1)),
        Value::Bool(true),
        Value::Sequence(vec![text("deep")]),
        Value::Null,
    ]);
    match flatten(&nested) {
        Value::Sequence(items) => {
            assert!(matches!(&items[0], Value::String(s) if s == "a"));
            assert!(matches!(items[1], Value::Number(Number::Integer(1))));
            assert!(matches!(items[2], Value::Bool(true)));
            assert!(matches!(items[3], Value::Null));
            assert!(matches!(items[4], Value::Null));
        }
        other => panic!("unexpected {:?}", other),
    }
    let mapping = Value::Mapping(vec![
        ("k".to_string(), text("v")),
        ("m".to_string(), Value::Mapping(Vec::new())),
    ]);
    match flatten(&mapping) {
        Value::Mapping(entries) => {
            assert_eq!(entries[0].0, "k");
            assert!(matches!(&entries[0].1, Value::String(s) if s == "v"));
            assert!(matches!(entries[1].1, Value::Null));
        }
        other => panic!("unexpected {:?}", other),
    }
    assert!(matches!(flatten(&text("s")), Value::String(s) if s == "s"));
    let args = flatten_arguments(&vec![("x".to_string(), nested)]);
    assert_eq!(args[0].0, "x");
    assert_eq!(
        bridge_answer("f", &Err("why".to_string())).unwrap_err(),
        "插件函数 'f' 执行失败: why"
    );
    assert!(matches!(bridge_answer("f", &Ok(Value::Bool(false))), Ok(Value::Bool(false))));
}

#[test]
fn host_calls_the_template_function_in_force() {
    let mut host: PluginManager<dyn Plugin> =
        PluginManager::new("/site".to_string(), PluginContext::default());
    host.register("word-count", PluginRecord::builtin(Box::new(WordCountPlugin::new())));
    host.register("toc", PluginRecord::builtin(Box::new(TocPlugin::new())));
    let functions = host.register_template_functions().unwrap();
    let names: Vec<(&str, usize)> = functions.iter().map(|f| (f.name.as_str(), f.plugin)).collect();
    assert_eq!(names, vec![("word_count", 0), ("reading_time", 0)]);
    let args = vec![("content".to_string(), text("a b"))];
    match host.call_template_function("word_count", &args) {
        Some(Ok(Value::Number(Number::Integer(n)))) => assert_eq!(n, 2),
        other => panic!("unexpected {:?}", other),
    }
    match host.call_template_function("word_count", &Vec::new()) {
        Some(Err(message)) => {
            assert_eq!(message, "插件函数 'word_count' 执行失败: 缺少必要的参数: content")
        }
        other => panic!("unexpected {:?}", other),
    }
    assert!(host.call_template_function("missing", &args).is_none());
    assert!(host.register_to_theme_renderer().is_ok());
    let resources = host.plugin_resources();
    assert!(resources.head.is_empty() && resources.footer.is_empty());
    let _ = ResourceLocation::Head;
}
