use rust_hexo::cli::commands::{initialize_site_structure, is_yes, plan, Action, Step};
use rust_hexo::cli::{
    Cli, Commands, GenArgs, InitArgs, NewArgs, PluginArgs, PluginCommands, ServerArgs,
};
use rust_hexo::generation::engine::{load_theme_config, merge_setting};
use rust_hexo::generation::generator::count_words;
use rust_hexo::generation::{Engine, HtmlGenerator, Server};
use rust_hexo::models::{Config, Number, Post, Timestamp, Value};
use rust_hexo::plugins::ExamplePlugin;
use rust_hexo::text::{
    contains_text, decimal_string, first_word_of, lines_of, replace_text, signed_decimal_string,
    take_chars, trim, trim_end_char, trim_start_char, two_digit_string,
};
use rust_hexo::theme::renderer::{
    date_format_filter, date_function, default_function, markdown_filter, measure,
    reading_time_function, render_markdown, url_for_function, word_count_function,
};
use rust_hexo::utils::markdown::render;
use rust_hexo::utils::time::{format_date, format_stamp, resolve_date, write_instant};
use rust_hexo::utils::{
    create_permalink, ensure_leading_slash, ensure_trailing_slash, is_markdown_extension,
    is_markdown_file, relative_time_from_now, slugify,
};

fn text(s: &str) -> Value {
    Value::String(s.to_string())
}

fn at(seconds: i64) -> Timestamp {
    Timestamp { seconds, nanos: 0, year: 2023, month: 4, day: 5, hour: 6, minute: 7, second: 8 }
}

fn steps(command: Commands) -> Vec<Step> {
    plan(&Cli { path: ".".to_string(), command }).iter().map(|a| a.kind()).collect()
}

#[test]
fn commands_are_planned() {
    assert_eq!(
        steps(Commands::Generate(GenArgs { deploy: true, watch: true })),
        vec![
            Step::InitEngine,
            Step::Generate,
            Step::Watch,
            Step::WaitForInterrupt,
            Step::Unwatch,
            Step::Deploy
        ]
    );
    assert_eq!(
        steps(Commands::Generate(GenArgs { deploy: false, watch: false })),
        vec![Step::InitEngine, Step::Generate]
    );
    assert_eq!(
        steps(Commands::Server(ServerArgs { port: 4000, watch: true })),
        vec![Step::Generate, Step::SpawnWatch, Step::Serve, Step::WaitForInterrupt, Step::Unwatch]
    );
    assert_eq!(
        steps(Commands::Server(ServerArgs { port: 4000, watch: false })),
        vec![Step::Generate, Step::Serve, Step::WaitForInterrupt]
    );
    assert_eq!(steps(Commands::Clean), vec![Step::Clean]);
    assert_eq!(steps(Commands::Deploy), vec![Step::Generate, Step::Deploy]);
    assert_eq!(
        steps(Commands::Plugin(PluginArgs { command: PluginCommands::List })),
        vec![Step::ListPlugins, Step::Generate]
    );
    assert_eq!(
        steps(Commands::Plugin(PluginArgs { command: PluginCommands::EnableHotReload })),
        vec![Step::EnableHotReload]
    );
    assert_eq!(
        steps(Commands::Plugin(PluginArgs { command: PluginCommands::DisableHotReload })),
        vec![Step::DisableHotReload]
    );
}

#[test]
fn plans_carry_their_arguments() {
    let init = plan(&Cli {
        path: "/work".to_string(),
        command: Commands::Init(InitArgs { name: "blog".to_string(), title: None }),
    });
    assert!(matches!(&init[0], Action::ConfirmOverwrite { site } if site == "/work/blog"));
    assert!(matches!(&init[1], Action::InitializeSite { site, title } if site == "/work/blog" && title == "blog"));
    let page = plan(&Cli {
        path: ".".to_string(),
        command: Commands::New(NewArgs { title: "About".to_string(), path: None, page: true }),
    });
    assert!(matches!(&page[0], Action::NewPage { title, path } if title == "About" && path == "page"));
    let post = plan(&Cli {
        path: ".".to_string(),
        command: Commands::New(NewArgs {
            title: "Hi".to_string(),
            path: Some("x.md".to_string()),
            page: false,
        }),
    });
    assert!(matches!(&post[0], Action::NewPost { title, path: Some(p) } if title == "Hi" && p == "x.md"));
    let serve = plan(&Cli {
        path: ".".to_string(),
        command: Commands::Server(ServerArgs { port: 8080, watch: false }),
    });
    assert!(matches!(serve[1], Action::Serve { port: 8080 }));
}

#[test]
fn yes_is_a_single_letter() {
    assert!(is_yes("y"));
    assert!(is_yes(" Y \n"));
    assert!(!is_yes("yes"));
    assert!(!is_yes(""));
    assert!(!is_yes("n"));
}

#[test]
fn new_site_has_its_files() {
    let skeleton = initialize_site_structure("/w/blog", "My: Site");
    assert_eq!(skeleton.directories.len(), 10);
    assert_eq!(skeleton.directories[0], "/w/blog/source");
    assert_eq!(skeleton.directories[7], "/w/blog/themes/default/source/images");
    assert_eq!(skeleton.directories[9], "/w/blog/plugins");
    assert_eq!(skeleton.theme_files.len(), 6);
    assert_eq!(skeleton.theme_files[0], "/w/blog/themes/default/source/css/style.css");
    assert_eq!(skeleton.files.len(), 4);
    assert_eq!(skeleton.files[0].path, "/w/blog/_config.yml");
    assert!(skeleton.files[0].content.starts_with("# 站点信息\ntitle: My: Site\nsubtitle: "));
    assert!(skeleton.files[0].content.contains("per_page: 10\npagination_dir: page\n"));
    assert!(skeleton.files[0].content.ends_with("  content: true\n  format: html\n"));
    assert_eq!(skeleton.files[1].path, "/w/blog/source/_posts/hello-world.md");
    assert!(skeleton.files[1].content.starts_with("---\ntitle: Hello World\ndate: 2023-01-01 12:00:00\n"));
    assert_eq!(skeleton.files[2].content, "---\ntitle: {{ title }}\ndate: {{ date }}\ncategories:\ntags:\n---\n");
    assert_eq!(skeleton.files[3].content, "---\ntitle: {{ title }}\ndate: {{ date }}\n---\n");
}

#[test]
fn new_posts_are_drafted() {
    let engine: Engine<ExamplePlugin> = Engine::new("/s".to_string(), Config::default()).unwrap();
    let now = Timestamp {
        seconds: 1706933106,
        nanos: 0,
        year: 2024,
        month: 2,
        day: 3,
        hour: 4,
        minute: 5,
        second: 6,
    };
    let draft = engine.new_post("Hello World", None, false, &now, 0).unwrap();
    assert_eq!(draft.target, "/s/source/_posts/hello-world.md");
    assert_eq!(
        draft.content,
        "---\ntitle: Hello World\ndate: 2024-02-03 04:05:06\n---\n\n# Hello World\n\n在这里开始你的创作...\n"
    );
    assert_eq!(
        engine.new_post("Hello World", Some("drafts"), true, &now, 0).unwrap().target,
        "/s/source/_posts/drafts/hello-world.md"
    );
    assert_eq!(
        engine.new_post("Hello World", Some("x.md"), false, &now, 0).unwrap().target,
        "/s/source/_posts/x.md"
    );
    assert_eq!(
        Engine::<ExamplePlugin>::post_exists_error("/a.md").to_text(),
        "其他错误: 文件已存在: /a.md"
    );
    assert!(engine.new_page("t", "p").is_ok());
    assert!(engine.deploy().is_ok());
    assert!(engine.clean().is_ok());
    assert!(Engine::<ExamplePlugin>::needs_build_before_serving(false, false));
    assert!(Engine::<ExamplePlugin>::needs_build_before_serving(true, true));
    assert!(!Engine::<ExamplePlugin>::needs_build_before_serving(true, false));
    let statics = engine.copy_static_files().unwrap();
    assert_eq!((statics.from.as_str(), statics.to.as_str()), ("/s/source/static", "/s/public"));
    let assets = engine.copy_theme_assets().unwrap();
    assert_eq!(
        (assets.from.as_str(), assets.to.as_str()),
        ("/s/themes/default/source", "/s/public/assets")
    );
}

#[test]
fn theme_settings_are_merged() {
    let theme = vec![("a".to_string(), text("1")), ("b".to_string(), text("2"))];
    let site = Value::Mapping(vec![("b".to_string(), text("B")), ("c".to_string(), text("C"))]);
    let merged = load_theme_config(theme.clone(), Some(site)).unwrap();
    let shown: Vec<(String, String)> = merged
        .iter()
        .map(|(k, v)| (k.clone(), v.as_str().unwrap().to_string()))
        .collect();
    assert_eq!(
        shown,
        vec![
            ("a".to_string(), "1".to_string()),
            ("b".to_string(), "B".to_string()),
            ("c".to_string(), "C".to_string())
        ]
    );
    assert_eq!(load_theme_config(theme.clone(), None).unwrap().len(), 2);
    assert_eq!(load_theme_config(theme.clone(), Some(text("x"))).unwrap().len(), 2);
    let mut settings = theme;
    merge_setting(&mut settings, "a".to_string(), Value::Bool(true));
    assert!(matches!(settings[0].1, Value::Bool(true)));
}

#[test]
fn server_knows_its_address() {
    let server = Server::new("/s/public".to_string(), 4000);
    assert_eq!(server.public_dir(), "/s/public");
    assert_eq!(server.port(), 4000);
    assert_eq!(server.bind_address(), "0.0.0.0:4000");
    assert_eq!(server.local_url(), "http://localhost:4000");
}

#[test]
fn overview_pages_list_groups_and_posts() {
    let mut a = post("a", 1_672_574_400, 2023, 1);
    a.categories = vec!["web".to_string(), "rust".to_string()];
    a.tags = vec!["t1".to_string()];
    let mut b = post("b", 1_675_252_800, 2023, 2);
    b.categories = vec!["web".to_string()];
    let c = post("c", 1_640_995_200, 2022, 1);
    let posts = vec![a, b, c];
    let generator: HtmlGenerator<'static, ExamplePlugin> =
        HtmlGenerator::new("/o".to_string(), Config::default(), "/".to_string());

    let categories = generator.generate_categories_index(&posts, 2024).unwrap();
    assert_eq!(categories.path, "/o/categories/index.html");
    let rust_at = categories.content.find("/categories/rust\">rust</a></h2>").unwrap();
    let web_at = categories.content.find("/categories/web\">web</a></h2>").unwrap();
    assert!(rust_at < web_at);
    assert!(categories.content.contains("            <span class=\"post-count\">2 篇文章</span>\n"));
    assert!(categories.content.contains("            <h2>全部分类文章</h2>\n            <article class=\"post-item\">\n                <h3><a href=\"/posts/b.html\">b</a></h3>\n                <div class=\"post-meta\">\n                    <time>2023-02-01</time>\n | 分类: <a href=\"/categories/web\">web</a>                </div>\n            </article>\n            <article class=\"post-item\">\n                <h3><a href=\"/posts/a.html\">a</a></h3>\n                <div class=\"post-meta\">\n                    <time>2023-01-01</time>\n | 分类: <a href=\"/categories/web\">web</a>, <a href=\"/categories/rust\">rust</a> | 标签: <a href=\"/tags/t1\">t1</a>                </div>\n            </article>\n        </div>\n    </div>\n"));
    assert!(!categories.content.contains("posts/c.html"));

    let tags = generator.generate_tags_index(&posts, 2024).unwrap();
    assert_eq!(tags.path, "/o/tags/index.html");
    assert!(tags.content.contains("            <a href=\"/tags/t1\" style=\"font-size: 110%\">t1 <span class=\"tag-count\">(1)</span></a>\n"));
    assert!(tags.content.contains("<h2>全部标签文章</h2>"));

    let archives = generator.generate_archives_index(&posts, 2024).unwrap();
    assert_eq!(archives.path, "/o/archives/index.html");
    assert!(archives.content.contains("        <h1>Archives</h1>\n        <div class=\"year-group\">\n            <h2>2023</h2>\n            <div class=\"month-group\">\n                <h3><a href=\"/archives/2023/02.html\">2023-02</a> (1 posts)</h3>\n            </div>\n            <div class=\"month-group\">\n                <h3><a href=\"/archives/2023/01.html\">2023-01</a> (1 posts)</h3>\n            </div>\n        </div>\n        <div class=\"year-group\">\n            <h2>2022</h2>\n            <div class=\"month-group\">\n                <h3><a href=\"/archives/2022/01.html\">2022-01</a> (1 posts)</h3>\n            </div>\n        </div>\n    </div>\n"));

    let site = generator.generate(&posts, &at(0)).unwrap();
    assert_eq!(site.post_pages.len(), 3);
    assert_eq!(site.index_pages.len(), 1);
    assert_eq!(site.categories.len(), 2);
    assert_eq!(site.tags.len(), 1);
    assert_eq!(site.archives.len(), 3);
    assert_eq!(site.theme_assets.from, "themes/default/source");
    assert_eq!(site.theme_assets.to, "/o");
    assert!(site.search.is_some());
    assert!(site.warning.is_none());
    assert!(generator.finish().is_none());
    assert!(generator.cleanup().unwrap().is_empty());
    assert!(generator.generate_search_page(2024).unwrap().contains("const searchIndex = {};"));
    assert!(generator.generate_search_page(2024).unwrap().contains("<h3><a href=\"${{post.url}}\">${{post.title}}</a></h3>"));
}

fn post(title: &str, seconds: i64, year: i32, month: u32) -> Post {
    let date = Timestamp { seconds, nanos: 0, year, month, day: 1, hour: 12, minute: 0, second: 0 };
    Post {
        title: title.to_string(),
        date,
        updated: None,
        comments: true,
        layout: "post".to_string(),
        content: String::new(),
        rendered_content: None,
        source: String::new(),
        path: format!("posts/{}.html", title),
        permalink: String::new(),
        excerpt: None,
        url: None,
        categories: Vec::new(),
        tags: Vec::new(),
        front_matter: Vec::new(),
    }
}

#[test]
fn mixed_scripts_are_counted() {
    assert_eq!(count_words("hello, world"), 2);
    assert_eq!(count_words("你好 world"), 3);
    assert_eq!(count_words("a1b2 c"), 2);
    assert_eq!(count_words("ab你cd"), 2);
    assert_eq!(count_words(""), 0);
    assert_eq!(measure("hello 世界"), 4);
}

#[test]
fn template_functions() {
    let args = vec![("content".to_string(), text("one two 三"))];
    assert!(matches!(word_count_function(&args), Ok(Value::Number(Number::Integer(4)))));
    assert!(matches!(reading_time_function(&args), Ok(Value::Number(Number::Integer(1)))));
    let long = vec![("content".to_string(), text(&"w ".repeat(401)))];
    assert!(matches!(reading_time_function(&long), Ok(Value::Number(Number::Integer(3)))));
    assert_eq!(word_count_function(&Vec::new()).unwrap_err(), "缺少必要的参数: content");
    assert!(matches!(url_for_function(&Vec::new()), Ok(Value::String(s)) if s == "/"));

    let value = vec![("value".to_string(), text("")), ("default".to_string(), text("d"))];
    assert!(matches!(default_function(&value), Ok(Value::String(s)) if s == "d"));
    let set = vec![("value".to_string(), text("v")), ("default".to_string(), text("d"))];
    assert!(matches!(default_function(&set), Ok(Value::String(s)) if s == "v"));
    let null = vec![("value".to_string(), Value::Null), ("default".to_string(), Value::Bool(true))];
    assert!(matches!(default_function(&null), Ok(Value::Bool(true))));
    assert_eq!(default_function(&Vec::new()).unwrap_err(), "缺少必要的参数: value");
    assert_eq!(
        default_function(&vec![("value".to_string(), Value::Null)]).unwrap_err(),
        "缺少必要的参数: default"
    );
}

#[test]
fn dates_are_written_for_templates() {
    let rfc = vec![("value".to_string(), text("2023-04-05T06:07:08+02:00"))];
    assert!(matches!(date_function(&rfc), Ok(Value::String(s)) if s == "2023-04-05"));
    let with_format = vec![
        ("value".to_string(), text("2023-04-05T06:07:08+02:00")),
        ("format".to_string(), text("%H:%M %z")),
    ];
    assert!(matches!(date_function(&with_format), Ok(Value::String(s)) if s == "06:07 +0200"));
    let naive = vec![
        ("value".to_string(), text("2023/04/05 06:07:08")),
        ("format".to_string(), text("%d.%m.%Y")),
    ];
    assert!(matches!(date_function(&naive), Ok(Value::String(s)) if s == "05.04.2023"));
    let odd = vec![("value".to_string(), text("soon"))];
    assert!(matches!(date_function(&odd), Ok(Value::String(s)) if s == "soon"));
    let stamp = vec![("value".to_string(), Value::Number(Number::Integer(86_400)))];
    assert!(matches!(date_function(&stamp), Ok(Value::String(s)) if s == "1970-01-02"));
    assert_eq!(date_function(&Vec::new()).unwrap_err(), "缺少必要的参数: value");
    let bad_format =
        vec![("value".to_string(), text("x")), ("format".to_string(), Value::Bool(true))];
    assert_eq!(date_function(&bad_format).unwrap_err(), "format 必须是字符串");
    assert_eq!(
        date_function(&vec![("value".to_string(), Value::Bool(true))]).unwrap_err(),
        "无法将value解析为日期时间"
    );
    let ill = vec![("value".to_string(), text("2023-04-05T06:07:08Z")), ("format".to_string(), text("%Q"))];
    assert!(matches!(date_function(&ill), Ok(Value::String(s)) if s == "2023-04-05T06:07:08Z"));

    let filtered = date_format_filter(&text("2023-04-05T06:07:08Z"), &Vec::new());
    assert!(matches!(filtered, Ok(Value::String(s)) if s == "2023-04-05"));
    let kept = date_format_filter(&text("nope"), &Vec::new());
    assert!(matches!(kept, Ok(Value::String(s)) if s == "nope"));
    assert!(matches!(date_format_filter(&Value::Bool(true), &Vec::new()), Ok(Value::Bool(true))));
}

#[test]
fn markdown_is_rendered() {
    assert_eq!(render("# T").unwrap(), "<h1>T</h1>\n");
    assert_eq!(render("~~x~~").unwrap(), "<p><del>x</del></p>\n");
    assert_eq!(
        render_markdown("```\ncode\n```"),
        "<pre><code class=\"hljs\">code\n</code></pre>\n"
    );
    assert_eq!(render_markdown("\"q\""), "<p>\u{201c}q\u{201d}</p>\n");
    assert!(matches!(markdown_filter(&text("*a*"), &Vec::new()), Ok(Value::String(s)) if s == "<p><em>a</em></p>\n"));
    assert!(matches!(markdown_filter(&Value::Null, &Vec::new()), Ok(Value::Null)));
}

#[test]
fn paths_and_links() {
    assert!(is_markdown_file("a/b.md"));
    assert!(is_markdown_file("b.markdown"));
    assert!(!is_markdown_file("b.MD"));
    assert!(!is_markdown_file("b.txt"));
    assert!(!is_markdown_file("md"));
    assert!(!is_markdown_file(".md"));
    assert!(is_markdown_extension(Some("md")));
    assert!(!is_markdown_extension(None));
    assert_eq!(ensure_trailing_slash("a"), "a/");
    assert_eq!(ensure_trailing_slash("a/"), "a/");
    assert_eq!(ensure_trailing_slash(""), "/");
    assert_eq!(ensure_leading_slash("a"), "/a");
    assert_eq!(ensure_leading_slash("/a"), "/a");
    assert_eq!(ensure_leading_slash(""), "/");
    assert_eq!(slugify("My Test String!!!1!1"), "my-test-string-1-1");
    let date = Timestamp {
        seconds: 1680674828,
        nanos: 0,
        year: 2023,
        month: 4,
        day: 5,
        hour: 6,
        minute: 7,
        second: 8,
    };
    assert_eq!(
        create_permalink(&date, "Hello World", ":year/:month/:day/:title/"),
        "2023/04/05/hello-world/"
    );
    assert_eq!(create_permalink(&date, "T", ":hour-:minute-:second"), "06-07-08");
}

#[test]
fn relative_times() {
    let now = at(1_000_000);
    assert_eq!(relative_time_from_now(&at(1_000_000), &now), "just now");
    assert_eq!(relative_time_from_now(&at(1_000_000 - 59), &now), "just now");
    assert_eq!(relative_time_from_now(&at(1_000_100), &now), "just now");
    assert_eq!(relative_time_from_now(&at(1_000_000 - 60), &now), "1 minutes ago");
    assert_eq!(relative_time_from_now(&at(1_000_000 - 7_199), &now), "1 hours ago");
    assert_eq!(relative_time_from_now(&at(1_000_000 - 86_400 * 29), &now), "29 days ago");
    assert_eq!(relative_time_from_now(&at(1_000_000 - 86_400 * 45), &now), "1 months ago");
    assert_eq!(relative_time_from_now(&at(1_000_000 - 86_400 * 800), &now), "2 years ago");
    let mut late = at(1_000_000 - 60);
    late.nanos = 1;
    assert_eq!(relative_time_from_now(&late, &now), "just now");
}

#[test]
fn dates_are_read_and_written() {
    let naive = resolve_date(Some("2023-01-01 12:00:00"), at(1), at(2));
    assert_eq!(naive.seconds, 1_672_574_400);
    assert_eq!((naive.year, naive.month, naive.day), (2023, 1, 1));
    assert_eq!(resolve_date(Some("2023-01-01"), at(1), at(2)), at(2));
    assert_eq!(resolve_date(None, at(1), at(2)), at(1));
    let zoned = resolve_date(Some("2023-01-01 12:00:00 +0800"), at(1), at(2));
    assert_eq!(zoned.seconds, 1_672_545_600);
    assert_eq!(zoned.hour, 4);
    assert_eq!(format_date(&naive), "2023-01-01");
    assert_eq!(write_instant(&naive, "%H:%M:%S"), "12:00:00");
    assert_eq!(format_stamp(&naive, 0), "2023-01-01 12:00:00");
    assert_eq!(format_stamp(&naive, 8 * 3600), "2023-01-01 20:00:00");
    assert_eq!(format_stamp(&naive, -3600 * 13), "2022-12-31 23:00:00");
    assert_eq!(write_instant(&naive, "%Y"), "2023");
    assert_eq!(write_instant(&naive, "%Q"), "");
    assert_eq!(format_stamp(&naive, 100 * 3600), "");
}

#[test]
fn text_helpers() {
    assert_eq!(decimal_string(0), "0");
    assert_eq!(decimal_string(1234567890), "1234567890");
    assert_eq!(signed_decimal_string(-42), "-42");
    assert_eq!(signed_decimal_string(i64::MIN), "-9223372036854775808");
    assert_eq!(two_digit_string(7), "07");
    assert_eq!(two_digit_string(123), "123");
    assert_eq!(replace_text("aXbXc", "X", "--"), "a--b--c");
    assert_eq!(replace_text("aaa", "aa", "b"), "ba");
    assert_eq!(replace_text("ab", "", "-"), "-a-b-");
    assert_eq!(replace_text("abc", "abcd", "x"), "abc");
    assert!(contains_text("hello", "ell"));
    assert!(contains_text("hello", ""));
    assert!(!contains_text("hello", "elo"));
    assert_eq!(take_chars("héllo", 2), "hé");
    assert_eq!(take_chars("hi", 5), "hi");
    assert_eq!(trim("  a b \n"), "a b");
    assert_eq!(trim(" \t "), "");
    assert_eq!(trim_end_char("a//", '/'), "a");
    assert_eq!(trim_start_char("```rust", '`'), "rust");
    assert_eq!(first_word_of("  rust  extra"), Some("rust".to_string()));
    assert_eq!(first_word_of("   "), None);
    assert_eq!(lines_of("a\nb\r\n\nc"), vec!["a", "b", "", "c"]);
    assert_eq!(lines_of("a\n"), vec!["a"]);
    assert_eq!(lines_of("a\r"), vec!["a\r"]);
    assert!(lines_of("").is_empty());
}
