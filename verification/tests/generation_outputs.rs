use rust_hexo::generation::engine::{base_url, page_size, EmitStage, Stage};
use rust_hexo::generation::feeds::{feed_entries, order_newest_first, pub_date, write_atom, write_rss};
use rust_hexo::generation::generator::{format_month, group_posts};
use rust_hexo::generation::html::{write_html_footer, write_html_header, write_listing_page, ListingKind};
use rust_hexo::generation::pages::{excerpt, index_site, post_site, summarize};
use rust_hexo::generation::search::preview;
use rust_hexo::generation::watch::{
    is_relevant_change, is_relevant_path, ChangeKind, ChangedPath, WatchEvent, WatchState,
};
use rust_hexo::generation::{Engine, HtmlGenerator, SearchIndexGenerator};
use rust_hexo::models::config::SearchConfig;
use rust_hexo::models::{Config, Post, Timestamp};
use rust_hexo::plugins::{ExamplePlugin, PluginContext, PluginHook, PluginManager, PluginRecord};

fn at(seconds: i64, year: i32, month: u32, day: u32) -> Timestamp {
    Timestamp { seconds, nanos: 0, year, month, day, hour: 12, minute: 0, second: 0 }
}

fn post(title: &str, date: Timestamp, categories: &[&str], tags: &[&str]) -> Post {
    Post {
        title: title.to_string(),
        date,
        updated: Some(date),
        comments: true,
        layout: "post".to_string(),
        content: format!("<p>{}</p>", title),
        rendered_content: None,
        source: format!("{}.md", title),
        path: format!("posts/{}.html", title),
        permalink: format!("posts/{}.html", title),
        excerpt: None,
        url: None,
        categories: categories.iter().map(|c| c.to_string()).collect(),
        tags: tags.iter().map(|c| c.to_string()).collect(),
        front_matter: Vec::new(),
    }
}

fn posts() -> Vec<Post> {
    vec![
        post("c", at(1_672_574_400, 2023, 1, 1), &["rust", "web"], &["t"]),
        post("b", at(1_675_252_800, 2023, 2, 1), &["web"], &[]),
        post("a", at(1_672_660_800, 2023, 1, 2), &[], &["t"]),
    ]
}

fn generator(config: Config) -> HtmlGenerator<'static, ExamplePlugin> {
    HtmlGenerator::new("/site/public".to_string(), config, "/site".to_string())
}

#[test]
fn frame_of_a_page() {
    let mut config = Config::default();
    config.subtitle = Some("Sub".to_string());
    config.author = Some("Me".to_string());
    let mut page = String::from("X");
    write_html_header(&config, &mut page, "T");
    assert!(page.starts_with("X<!DOCTYPE html>\n<html lang=\"en\">\n<head>\n    <meta charset=\"UTF-8\">\n"));
    assert!(page.contains("    <title>T</title>\n    <link rel=\"stylesheet\" href=\"/css/style.css\">\n</head>\n<body>\n"));
    assert!(page.contains("            <h1><a href=\"/\">My Blog</a></h1>\n            <p class=\"site-description\">Sub</p>\n            <nav class=\"site-nav\">\n"));
    assert!(page.ends_with("    </header>\n    <main class=\"container\">\n"));
    let mut foot = String::new();
    write_html_footer(&config, &mut foot, 2024);
    assert_eq!(
        foot,
        "    </main>\n    <footer class=\"site-footer\">\n        <div class=\"container\">\n            <p>&copy; 2024 My Blog\n by Me\n            </p>\n        </div>\n    </footer>\n</body>\n</html>\n"
    );
    let plain = Config::default();
    let mut bare = String::new();
    write_html_header(&plain, &mut bare, "T");
    assert!(!bare.contains("site-description"));
}

#[test]
fn listing_page_lists_its_members() {
    let config = Config::default();
    let all = posts();
    let page = write_listing_page(&config, ListingKind::Category, "web", &all, &vec![0, 1], 2024);
    assert!(page.contains("    <title>Category: web</title>\n"));
    assert!(page.contains("    <div class=\"category-posts\">\n        <h1>Category: web</h1>\n        <p>Posts: 2</p>\n        <article class=\"post-item\">\n            <h2><a href=\"/posts/c.html\">c</a></h2>\n            <time>2023-01-01</time>\n        </article>\n        <article class=\"post-item\">\n            <h2><a href=\"/posts/b.html\">b</a></h2>\n            <time>2023-02-01</time>\n        </article>\n    </div>\n    </main>\n"));
}

#[test]
fn posts_are_grouped_in_order_of_first_appearance() {
    let all = posts();
    let groups = group_posts(&all, ListingKind::Category);
    assert_eq!(groups.len(), 2);
    assert_eq!(groups[0].name, "rust");
    assert_eq!(groups[0].members, vec![0]);
    assert_eq!(groups[1].name, "web");
    assert_eq!(groups[1].members, vec![0, 1]);
    let months = group_posts(&all, ListingKind::Archive);
    assert_eq!(months.len(), 2);
    assert_eq!(months[0].name, "2023-01");
    assert_eq!(months[0].members, vec![0, 2]);
    assert_eq!(months[1].name, "2023-02");
    assert_eq!(format_month(&at(0, -5, 3, 1)), "-5-03");
}

#[test]
fn listings_are_written_below_their_directories() {
    let all = posts();
    let generator = generator(Config::default());
    let categories = generator.generate_categories(&all, 2024).unwrap();
    assert_eq!(categories.len(), 2);
    assert_eq!(categories[0].path, "/site/public/categories/rust/index.html");
    assert_eq!(categories[1].path, "/site/public/categories/web/index.html");
    assert!(categories[1].content.contains("<p>Posts: 2</p>"));
    let tags = generator.generate_tags(&all, 2024).unwrap();
    assert_eq!(tags.len(), 1);
    assert_eq!(tags[0].path, "/site/public/tags/t/index.html");
    assert!(tags[0].content.contains("<h1>Tag: t</h1>"));
    let archives = generator.generate_archives(&all, 2024).unwrap();
    assert_eq!(archives.len(), 2);
    assert_eq!(archives[0].path, "/site/public/archives/2023/01.html");
    assert!(archives[0].content.contains("<h1>Archive: 2023-01</h1>"));
    assert!(archives[0].content.contains("    <div class=\"archive-posts\">"));
    assert_eq!(archives[1].path, "/site/public/archives/2023/02.html");
}

#[test]
fn index_pages_link_to_their_neighbours() {
    let all: Vec<Post> = (0..5)
        .map(|i| post(&format!("n{}", i), at(1_700_000_000 - i, 2023, 11, 14), &[], &[]))
        .collect();
    let generator = generator(Config::default());
    let pages = generator.generate_paginated_index(&all, 2).unwrap();
    assert_eq!(pages.len(), 3);
    assert_eq!(pages[0].file, "/site/public/index.html");
    assert_eq!(pages[1].file, "/site/public/page/2/index.html");
    assert_eq!(pages[2].file, "/site/public/page/3/index.html");
    assert_eq!((pages[0].current, pages[0].total), (1, 3));
    assert_eq!((pages[0].prev, pages[0].next), (None, Some(2)));
    assert_eq!((pages[1].prev, pages[1].next), (Some(1), Some(3)));
    assert_eq!((pages[2].prev, pages[2].next), (Some(2), None));
    assert_eq!(pages[0].prev_link, None);
    assert_eq!(pages[0].next_link, Some("/page/2/".to_string()));
    assert_eq!(pages[1].prev_link, Some("/".to_string()));
    assert_eq!(pages[2].prev_link, Some("/page/2/".to_string()));
    assert_eq!(pages[2].next_link, None);
    assert_eq!(pages[0].base, "/");
    let shown: Vec<Vec<&str>> =
        pages.iter().map(|p| p.posts.iter().map(|s| s.title.as_str()).collect()).collect();
    assert_eq!(shown, vec![vec!["n0", "n1"], vec!["n2", "n3"], vec!["n4"]]);
    assert_eq!(pages[0].posts[0].excerpt, "<p>n0</p>");
    assert!(pages[0].plugins.is_empty());
    assert_eq!(pages[0].site.language, "en");
    assert!(generator.generate_paginated_index(&Vec::new(), 2).unwrap().is_empty());
}

#[test]
fn long_bodies_are_cut_for_the_excerpt() {
    let short = "x".repeat(200);
    assert_eq!(summarize(&short), short);
    let long = "é".repeat(201);
    assert_eq!(summarize(&long), format!("{}...", "é".repeat(200)));
    let open_code = format!("<pre><code>{}", "y".repeat(300));
    assert_eq!(summarize(&open_code), format!("{}...</code></pre>", &open_code[..200]));
    let closed_code = format!("<code>a</code>{}", "y".repeat(300));
    assert_eq!(summarize(&closed_code), format!("{}...", &closed_code[..200]));
    let mut p = post("x", at(0, 1970, 1, 1), &[], &[]);
    p.excerpt = Some("mine".to_string());
    assert_eq!(excerpt(&p), "mine");
    assert_eq!(preview(&"z".repeat(151)), format!("{}...", "z".repeat(150)));
    assert_eq!(preview("short"), "short");
}

#[test]
fn sites_are_shown_with_defaults() {
    let mut config = Config::default();
    config.language = None;
    config.root = Some(String::new());
    config.per_page = Some(5);
    let index = index_site(&config);
    assert_eq!(index.url, "http://localhost");
    assert_eq!(index.language, "zh-CN");
    assert_eq!(index.root, "");
    assert_eq!(index.theme, "default");
    assert_eq!(index.keywords, "");
    let site = post_site(&config);
    assert_eq!(site.language, "zh-CN");
    assert_eq!(site.root, "/");
    assert_eq!(site.url, "");
    assert_eq!(site.permalink, ":year/:month/:day/:title/");
    assert_eq!(site.per_page, 5);
    assert_eq!(site.pagination_dir, "page");
    assert_eq!(site.archive_dir, "archives");
    assert_eq!(post_site(&Config::default()).per_page, 10);
}

#[test]
fn post_pages_carry_what_the_template_needs() {
    let all = posts();
    let mut host: PluginManager<ExamplePlugin> =
        PluginManager::new("/site".to_string(), PluginContext::default());
    host.register("word_count", PluginRecord::builtin(Box::new(ExamplePlugin::new())));
    let generator =
        HtmlGenerator::new_with_plugin_manager("/site/public".to_string(), Config::default(), &host);
    let now = Timestamp {
        seconds: 1_709_971_507,
        nanos: 0,
        year: 2024,
        month: 3,
        day: 9,
        hour: 8,
        minute: 5,
        second: 7,
    };
    let pages = generator.generate_posts(&all, &now).unwrap();
    assert_eq!(pages.len(), 3);
    assert_eq!(pages[1].file, "/site/public/posts/b.html");
    assert_eq!(pages[1].post, 1);
    assert_eq!(pages[1].layout_dir, "/site/themes/default/layout");
    assert_eq!(pages[1].now, "2024-03-09 08:05:07");
    assert_eq!(pages[1].plugins, vec!["word-count".to_string()]);
    assert_eq!(generator.layout_dir(), "/site/themes/default/layout");
}

#[test]
fn feeds_carry_the_newest_posts() {
    let all = posts();
    assert_eq!(order_newest_first(&all), vec![1, 2, 0]);
    let mut config = Config::default();
    config.url = Some("http://example.com//".to_string());
    config.description = Some("About".to_string());
    let entries = feed_entries(&config, &all, 2);
    assert_eq!(entries.len(), 2);
    assert_eq!(entries[0].title, "b");
    assert_eq!(entries[0].link, "http://example.com/posts/b.html");
    assert_eq!(entries[0].guid, "posts/b.html");
    assert_eq!(entries[0].summary, "");
    assert_eq!(entries[1].title, "a");
    assert_eq!(pub_date(&all[0].date), "Sun, 1 Jan 2023 12:00:00 +0000");
    assert_eq!(pub_date(&at(300_000_000_000, 11476, 1, 1)), "");

    let rss = write_rss(&config, &entries);
    assert!(rss.contains("<title>My Blog</title>"));
    assert!(rss.contains("<link>http://example.com//</link>"));
    assert!(rss.contains("<description>About</description>"));
    assert!(rss.contains("<language>en</language>"));
    assert!(rss.contains("<item><title>b</title><link>http://example.com/posts/b.html</link>"));
    assert!(rss.contains("<guid>posts/b.html</guid>"));
    assert!(rss.contains("<pubDate>Wed, 1 Feb 2023 12:00:00 +0000</pubDate>"));

    let atom = write_atom(&config, &entries, &at(1_700_000_000, 2023, 11, 14));
    assert!(atom.contains("<title>My Blog</title>"));
    assert!(atom.contains("<id>http://example.com//</id>"));
    assert!(atom.contains("<updated>2023-11-14T22:13:20+00:00</updated>"));
    assert!(atom.contains("<id>http://example.com/posts/b.html</id>"));
    assert!(atom.contains("rel=\"alternate\""));
    assert!(atom.contains("<published>2023-02-01T12:00:00+00:00</published>"));

    let generator = generator(config);
    let file = generator.generate_rss_feed(&all).unwrap();
    assert_eq!(file.path, "/site/public/rss.xml");
    assert!(file.content.contains("<title>c</title>"));
    let atom_file = generator.generate_atom_feed(&all, &at(0, 1970, 1, 1)).unwrap();
    assert_eq!(atom_file.path, "/site/public/atom.xml");
}

#[test]
fn search_index_has_one_entry_for_each_post() {
    let mut all = posts();
    all[0].content = "w".repeat(160);
    all[1].excerpt = Some("short".to_string());
    let index = SearchIndexGenerator::new(false).generate(&all).unwrap();
    assert_eq!(index.len(), 3);
    assert_eq!(index[0].content, format!("{}...", "w".repeat(150)));
    assert_eq!(index[0].date, "2023-01-01");
    assert_eq!(index[0].categories, vec!["rust".to_string(), "web".to_string()]);
    assert_eq!(index[1].content, "short");
    assert_eq!(index[2].tags, vec!["t".to_string()]);
    let full = SearchIndexGenerator::new(true).generate(&all).unwrap();
    assert_eq!(full[0].content, "w".repeat(160));
    assert_eq!(full[1].content, "<p>b</p>");

    let enabled = generator(Config::default()).generate_search_index(&all).unwrap().unwrap();
    assert_eq!(enabled.path, "/site/public/search/search.json");
    assert_eq!(enabled.items.len(), 3);
    let mut config = Config::default();
    config.search = Some(SearchConfig {
        enable: false,
        path: "search.json".to_string(),
        field: "post".to_string(),
        content: true,
        format: "html".to_string(),
    });
    assert!(generator(config).generate_search_index(&all).unwrap().is_none());
}

#[test]
fn watch_loop_rebuilds_after_a_quiet_second() {
    let change = WatchEvent::Changed {
        kind: ChangeKind::Modify,
        paths: vec![ChangedPath { path: "source/_posts/a.MD".to_string(), is_dir: false }],
    };
    let mut state = WatchState { pending_since: None };
    let action = state.step(&change, 5_000, true);
    assert!(!action.regenerate && !action.stop);
    assert_eq!(state.pending_since, Some(5_000));
    assert!(!state.step(&WatchEvent::Timeout, 5_999, true).regenerate);
    let due = state.step(&WatchEvent::Timeout, 6_000, true);
    assert!(due.regenerate && !due.stop);
    assert_eq!(state.pending_since, None);
    assert!(!state.step(&WatchEvent::Timeout, 7_000, true).regenerate);

    let mut stale = WatchState { pending_since: Some(0) };
    assert!(!stale.step(&WatchEvent::Timeout, 10_000, true).regenerate);
    assert_eq!(stale.pending_since, None);

    let mut first = WatchState::start(100);
    assert!(first.step(&WatchEvent::Timeout, 1_100, true).regenerate);
    assert!(first.step(&WatchEvent::Timeout, 2_100, false).stop);
    assert!(first.step(&WatchEvent::Disconnected, 2_200, true).stop);
}

#[test]
fn only_relevant_changes_count() {
    assert!(is_relevant_path("a/b", true));
    assert!(is_relevant_path("_config.yml", false));
    assert!(is_relevant_path("style.CSS", false));
    assert!(is_relevant_path("x.markdown", false));
    assert!(!is_relevant_path("image.png", false));
    assert!(!is_relevant_path("Makefile", false));
    let png = vec![ChangedPath { path: "a.png".to_string(), is_dir: false }];
    let mixed = vec![
        ChangedPath { path: "a.png".to_string(), is_dir: false },
        ChangedPath { path: "b.html".to_string(), is_dir: false },
    ];
    assert!(!is_relevant_change(ChangeKind::Create, &png));
    assert!(is_relevant_change(ChangeKind::Remove, &mixed));
    assert!(!is_relevant_change(ChangeKind::Access, &mixed));
    assert!(!is_relevant_change(ChangeKind::Modify, &Vec::new()));
}

#[test]
fn engine_runs_its_stages_in_order() {
    let mut engine: Engine<ExamplePlugin> =
        Engine::new("/site".to_string(), Config::default()).unwrap();
    assert_eq!(engine.source_dir, "/site/source");
    assert_eq!(engine.public_dir, "/site/public");
    assert_eq!(engine.theme_dir, "/site/themes/default");
    assert_eq!(engine.scaffold_dir, "/site/scaffolds");
    assert_eq!(engine.stages().len(), 15);
    assert_eq!(engine.stages()[0], Stage::ReloadPlugins);
    assert!(engine.init(Vec::new()).is_ok());
    let stages = engine.stages();
    assert_eq!(stages.len(), 14);
    assert_eq!(stages[0], Stage::Hook(PluginHook::BeforeGenerate));
    assert_eq!(stages[1], Stage::LoadContent);
    assert_eq!(stages[2], Stage::Classify);
    assert_eq!(stages[3], Stage::Hook(PluginHook::BeforeRouteGenerate));
    assert_eq!(stages[4], Stage::Emit(EmitStage::ThemeAssets));
    assert_eq!(stages[12], Stage::Emit(EmitStage::SearchIndex));
    assert_eq!(stages[13], Stage::Hook(PluginHook::AfterGenerate));
    assert!(engine.start_plugin_hot_reload().is_ok());
    let reloading = engine.stages();
    assert_eq!(reloading.len(), 15);
    assert_eq!(reloading[0], Stage::ReloadPlugins);
    engine.disable_plugin_hot_reload();
    assert_eq!(engine.stages().len(), 14);

    assert!(engine.needs_content_reload());
    engine.posts = posts();
    assert!(!engine.needs_content_reload());
    assert!(engine.watch().is_ok());
    assert!(engine.is_watching());
    assert!(engine.needs_content_reload());
    engine.unwatch();
    assert!(!engine.is_watching());
    assert!(engine.checkpoint(PluginHook::BeforeGenerate).is_none());
    assert!(engine.cleanup().unwrap().is_empty());
}

#[test]
fn engine_snapshot_and_settings() {
    let mut config = Config::default();
    config.url = Some("http://example.com".to_string());
    assert_eq!(base_url(&config), "http://example.com/");
    config.root = None;
    assert_eq!(base_url(&config), "http://example.com");
    config.url = None;
    assert_eq!(base_url(&config), "/");
    assert_eq!(base_url(&Config::default()), "/");
    assert_eq!(page_size(&Config::default()), 10);
    config.per_page = Some(3);
    assert_eq!(page_size(&config), 3);
    config.per_page = Some(0);
    assert_eq!(page_size(&config), 10);
    config.per_page = Some(-4);
    assert_eq!(page_size(&config), 10);

    let mut engine: Engine<ExamplePlugin> =
        Engine::new("/site".to_string(), Config::default()).unwrap();
    engine.posts = posts();
    let context = engine.create_plugin_context();
    assert_eq!(context.base_dir, "/site");
    assert_eq!(context.plugins_dir, "/site/plugins");
    assert_eq!(context.output_dir, "/site/public");
    assert_eq!(context.base_url, "/");
    assert_eq!(context.posts.len(), 3);
    let site = engine.create_site_config().unwrap();
    assert_eq!(site.title, "My Blog");
    assert_eq!(site.url, "http://localhost");
    assert_eq!(site.per_page, 10);
    assert_eq!(site.theme, "default");
    assert!(engine.load_config(config).is_ok());
    assert_eq!(engine.plugin_manager.current_context().posts.len(), 3);
    assert!(engine.process_categories_and_tags().is_ok());
    assert_eq!(engine.categories.len(), 0);
    assert_eq!(engine.process_markdown("x"), "x");
    assert_eq!(engine.process_html("y"), "y");
    let summary = engine.init(Vec::new()).unwrap();
    assert_eq!(summary.loaded, 0);
}
