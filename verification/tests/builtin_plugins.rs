use rust_hexo::models::{Config, Number, Value};
use rust_hexo::plugins::comments::{
    read_comments_config, CommentSystem, CommentsConfig, DisqusConfig, GiscusConfig,
};
use rust_hexo::plugins::math::{formula_markup, read_math_config, MathConfig};
use rust_hexo::plugins::word_count::{is_chinese, minutes, WordCountConfig};
use rust_hexo::plugins::{
    CommentsPlugin, ContentType, MathPlugin, Plugin, PluginContext, PluginHook, WordCountPlugin,
};
use rust_hexo::text::count_words;

fn text(s: &str) -> Value {
    Value::String(s.to_string())
}

fn giscus() -> GiscusConfig {
    GiscusConfig {
        repo: "blog".to_string(),
        repo_owner: "me".to_string(),
        repo_id: "R1".to_string(),
        category: "General".to_string(),
        category_id: "C1".to_string(),
        mapping: "pathname".to_string(),
        reactions_enabled: true,
        theme: "light".to_string(),
        lang: "en".to_string(),
    }
}

#[test]
fn comments_plugin_starts_without_widget() {
    let plugin = CommentsPlugin::new();
    assert_eq!(plugin.name(), "comments");
    assert_eq!(plugin.version(), "0.1.0");
    assert_eq!(plugin.process_content("body", ContentType::HTML).unwrap(), "body");
    assert!(plugin.execute_hook(&PluginHook::BeforePostRender).is_ok());
    assert!(plugin.cleanup().is_ok());
}

#[test]
fn giscus_widget_is_appended() {
    let plugin = CommentsPlugin::with_config(CommentsConfig {
        enabled: true,
        system: CommentSystem::Giscus,
        giscus: Some(giscus()),
        disqus: None,
    });
    let expected = "<script src=\"https://giscus.app/client.js\"\n                data-repo=\"me/blog\"\n                data-repo-id=\"R1\"\n                data-category=\"General\"\n                data-category-id=\"C1\"\n                data-mapping=\"pathname\"\n                data-reactions-enabled=\"true\"\n                data-theme=\"light\"\n                data-lang=\"en\"\n                crossorigin=\"anonymous\"\n                async>\n            </script>";
    assert_eq!(plugin.generate_giscus_html(&giscus()), expected);
    assert_eq!(
        plugin.process_content("body", ContentType::Markdown).unwrap(),
        format!("body\n{}", expected)
    );
}

#[test]
fn disqus_widget_is_written() {
    let plugin = CommentsPlugin::new();
    let html = plugin.generate_disqus_html(&DisqusConfig {
        shortname: "myblog".to_string(),
        lang: "zh".to_string(),
    });
    assert!(html.starts_with("<div id=\"disqus_thread\"></div>\n            <script>\n"));
    assert!(html.contains("this.language = \"zh\";"));
    assert!(html.contains("s.src = 'https://myblog.disqus.com/embed.js';"));
    assert!(html.ends_with("})();\n            </script>"));
}

#[test]
fn disabled_comments_leave_content_alone() {
    let plugin = CommentsPlugin::with_config(CommentsConfig {
        enabled: false,
        system: CommentSystem::Giscus,
        giscus: Some(giscus()),
        disqus: None,
    });
    assert_eq!(plugin.process_content("body", ContentType::HTML).unwrap(), "body");
}

#[test]
fn comments_settings_are_read_from_the_theme_configuration() {
    let settings = Value::Mapping(vec![
        ("enabled".to_string(), Value::Bool(true)),
        ("system".to_string(), text("disqus")),
        (
            "disqus".to_string(),
            Value::Mapping(vec![
                ("shortname".to_string(), text("s")),
                ("lang".to_string(), text("en")),
            ]),
        ),
    ]);
    let parsed = read_comments_config(&settings).unwrap();
    assert_eq!(parsed.system, CommentSystem::Disqus);
    assert!(parsed.giscus.is_none());
    assert_eq!(parsed.disqus.unwrap().shortname, "s");
    assert!(read_comments_config(&Value::Mapping(vec![("enabled".to_string(), Value::Bool(true))]))
        .is_none());
    assert!(read_comments_config(&Value::Null).is_none());

    let mut config = Config::default();
    config.plugins = Some(vec!["comments".to_string()]);
    config.theme_config = Some(Value::Mapping(vec![("comments".to_string(), settings)]));
    let mut context = PluginContext::default();
    context.config = config;
    let mut plugin = CommentsPlugin::new();
    assert!(plugin.init(&context).is_ok());
    assert!(plugin.process_content("x", ContentType::HTML).unwrap().contains("s.disqus.com"));
}

#[test]
fn formulas_are_marked_in_html_only() {
    let plugin = MathPlugin::new();
    assert_eq!(plugin.name(), "math");
    assert_eq!(plugin.process_content("a $x$ b", ContentType::Markdown).unwrap(), "a $x$ b");
    assert_eq!(
        plugin.process_content("a $x$ b", ContentType::HTML).unwrap(),
        "a <span class=\"math inline\">\\(x\\)</span> b"
    );
    assert_eq!(
        plugin.process_inline_math("$a$ and $b$"),
        "<span class=\"math inline\">\\(a\\)</span> and <span class=\"math inline\">\\(b\\)</span>"
    );
    assert_eq!(
        plugin.process_block_math("$$x\ny$$"),
        "<div class=\"math block\">\\[x\ny\\]</div>"
    );
}

#[test]
fn unknown_engine_leaves_formulas_alone() {
    assert_eq!(formula_markup("other", true, "$x$", "x"), "$x$");
    assert_eq!(formula_markup("mathjax", false, "$$x$$", "x"), "<div class=\"math block\">\\[x\\]</div>");
    let mut config = MathConfig::default();
    config.engine = "other".to_string();
    let plugin = MathPlugin::with_config(config);
    assert_eq!(
        plugin.process_content("<head></head>$x$", ContentType::HTML).unwrap(),
        "<head></head>$x$"
    );
}

#[test]
fn scripts_go_before_the_closing_tags() {
    let plugin = MathPlugin::new();
    let page = plugin.add_dependencies("<html><head></head><body>x</body></html>");
    assert!(page.starts_with("<html><head>\n<link rel=\"stylesheet\" href=\"https://cdn.jsdelivr.net/npm/katex@0.16.9/dist/katex.min.css\">"));
    assert!(page.contains("contrib/auto-render.min.js\"></script><script defer src=\"https://cdn.jsdelivr.net/npm/katex@0.16.9/dist/contrib/mhchem.min.js\"></script></head>"));
    assert!(page.contains("{left: \"\\\\(\", right: \"\\\\)\", display: false},"));
    assert!(page.contains("throwOnError: false,\n        errorColor: \"#cc0000\","));
    assert!(page.ends_with("});\n</script>\n</body></html>"));
    assert_eq!(plugin.add_dependencies("no tags"), "no tags");

    let mut config = MathConfig::default();
    config.engine = "mathjax".to_string();
    let mathjax = MathPlugin::with_config(config).add_dependencies("<head></head><body></body>");
    assert!(mathjax.contains("inlineMath: [['$', '$'], ['\\\\(', '\\\\)']],"));
    assert!(mathjax.contains("async src=\"https://cdn.jsdelivr.net/npm/mathjax@3/es5/tex-mml-chtml.js\"></script>\n</head>"));
    assert!(mathjax.ends_with("<body></body>"));
}

#[test]
fn math_settings_need_every_key() {
    let katex = Value::Mapping(vec![
        ("macros".to_string(), Value::Bool(false)),
        ("auto_render".to_string(), Value::Bool(false)),
        ("mhchem".to_string(), Value::Bool(false)),
        ("throw_on_error".to_string(), Value::Bool(true)),
        ("error_color".to_string(), text("#fff")),
    ]);
    let mathjax = Value::Mapping(vec![
        ("cdn_url".to_string(), text("u")),
        ("svg".to_string(), Value::Bool(true)),
        ("common_html".to_string(), Value::Bool(false)),
        ("chtml_preview".to_string(), Value::Bool(false)),
    ]);
    let full = Value::Mapping(vec![
        ("engine".to_string(), text("mathjax")),
        ("inline".to_string(), Value::Bool(false)),
        ("block".to_string(), Value::Bool(true)),
        ("katex".to_string(), katex),
        ("mathjax".to_string(), mathjax),
    ]);
    let parsed = read_math_config(&full).unwrap();
    assert_eq!(parsed.engine, "mathjax");
    assert!(!parsed.inline);
    assert_eq!(parsed.mathjax.cdn_url, "u");
    assert!(parsed.katex.throw_on_error);
    assert!(read_math_config(&Value::Mapping(vec![("engine".to_string(), text("katex"))])).is_none());
}

#[test]
fn words_and_chinese_characters_are_counted() {
    assert_eq!(count_words(""), 0);
    assert_eq!(count_words("   "), 0);
    assert_eq!(count_words("hello"), 1);
    assert_eq!(count_words("  hello   big\tworld\n"), 3);
    assert_eq!(count_words("a\u{3000}b"), 2);
    assert!(is_chinese('中'));
    assert!(is_chinese('\u{20000}'));
    assert!(!is_chinese('a'));
    assert!(!is_chinese('あ'));
    let plugin = WordCountPlugin::new();
    assert_eq!(plugin.count_words("hello world"), 2);
    assert_eq!(plugin.count_words("你好 world"), 4);
    assert_eq!(plugin.count_words("你好"), 3);
}

#[test]
fn reading_time_is_rounded_up() {
    assert_eq!(minutes(0, 200), 0);
    assert_eq!(minutes(1, 200), 1);
    assert_eq!(minutes(200, 200), 1);
    assert_eq!(minutes(201, 200), 2);
    assert_eq!(minutes(7, 1), 7);
}

#[test]
fn word_count_info_is_appended() {
    let plugin = WordCountPlugin::new();
    assert_eq!(plugin.name(), "word-count");
    assert_eq!(plugin.author(), "Rust-Hexo Team");
    assert_eq!(
        plugin.process_content("one two three", ContentType::HTML).unwrap(),
        "one two three\n\n<div class=\"word-count-info\"><span class=\"word-count\">字数统计: 3 字</span> | <span class=\"reading-time\">阅读时间: 1 分钟</span></div>"
    );
    let only_time = WordCountPlugin::with_config(WordCountConfig {
        show_word_count: false,
        show_read_time: true,
        words_per_minute: 1,
    });
    assert_eq!(
        only_time.process_content("a b", ContentType::HTML).unwrap(),
        "a b\n\n<div class=\"word-count-info\"><span class=\"reading-time\">阅读时间: 2 分钟</span></div>"
    );
    let silent = WordCountPlugin::with_config(WordCountConfig {
        show_word_count: false,
        show_read_time: false,
        words_per_minute: 200,
    });
    assert_eq!(silent.process_content("a b", ContentType::HTML).unwrap(), "a b");
    let stopped = WordCountPlugin::with_config(WordCountConfig {
        show_word_count: false,
        show_read_time: true,
        words_per_minute: 0,
    });
    assert!(stopped.info(3).contains("阅读时间: inf 分钟"));
    assert!(stopped.info(0).contains("阅读时间: NaN 分钟"));
}

#[test]
fn word_count_offers_template_functions() {
    let plugin = WordCountPlugin::new();
    assert_eq!(
        plugin.get_template_functions(),
        vec!["word_count".to_string(), "reading_time".to_string()]
    );
    let args = vec![("content".to_string(), text("a b c"))];
    match plugin.call_template_function("word_count", &args) {
        Ok(Value::Number(Number::Integer(n))) => assert_eq!(n, 3),
        other => panic!("unexpected {:?}", other),
    }
    match plugin.call_template_function("reading_time", &args) {
        Ok(Value::Number(Number::Integer(n))) => assert_eq!(n, 1),
        other => panic!("unexpected {:?}", other),
    }
    match plugin.call_template_function("reading_time", &vec![("content".to_string(), text(""))]) {
        Ok(Value::Number(Number::Integer(n))) => assert_eq!(n, 1),
        other => panic!("unexpected {:?}", other),
    }
    assert_eq!(
        plugin.call_template_function("word_count", &Vec::new()).unwrap_err(),
        "缺少必要的参数: content"
    );
    assert_eq!(
        plugin
            .call_template_function("word_count", &vec![("content".to_string(), Value::Bool(true))])
            .unwrap_err(),
        "无法将content转换为字符串"
    );
    assert!(plugin.call_template_function("other", &args).is_err());
}
