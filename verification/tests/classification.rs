use rust_hexo::generation::classify::{classify, count_name, names_of};
use rust_hexo::generation::content::{
    build_post, is_post_source, load_document, sort_newest_first, SourceFile,
};
use rust_hexo::generation::pagination::paginate;
use rust_hexo::models::value::find;
use rust_hexo::models::{Post, Timestamp, Value};
use rust_hexo::plugins::{ExamplePlugin, PluginContext, PluginManager};

fn day(n: u32) -> Timestamp {
    Timestamp {
        seconds: 1_700_000_000 + 86_400 * (n as i64),
        nanos: 0,
        year: 2023,
        month: 11,
        day: 14 + n,
        hour: 22,
        minute: 13,
        second: 20,
    }
}

fn post(title: &str, date: Timestamp, front_matter: Vec<(String, Value)>) -> Post {
    Post {
        title: title.to_string(),
        date,
        updated: Some(date),
        comments: true,
        layout: "post".to_string(),
        content: String::new(),
        rendered_content: None,
        source: format!("{}.md", title),
        path: format!("posts/{}.html", title),
        permalink: format!("posts/{}.html", title),
        excerpt: None,
        url: None,
        categories: Vec::new(),
        tags: Vec::new(),
        front_matter,
    }
}

fn text(s: &str) -> Value {
    Value::String(s.to_string())
}

#[test]
fn list_of_categories_yields_exactly_its_names() {
    let value = Value::Sequence(vec![text("a"), text("b")]);
    assert_eq!(names_of(Some(&value)), vec!["a".to_string(), "b".to_string()]);
}

#[test]
fn scalar_category_yields_exactly_one_name() {
    let value = text("a");
    assert_eq!(names_of(Some(&value)), vec!["a".to_string()]);
}

#[test]
fn missing_key_yields_no_name() {
    assert!(names_of(None).is_empty());
}

#[test]
fn other_shapes_are_dropped() {
    assert!(names_of(Some(&Value::Bool(true))).is_empty());
    assert!(names_of(Some(&Value::Null)).is_empty());
    let nested = Value::Sequence(vec![Value::Sequence(vec![text("x")]), text("y"), Value::Null]);
    assert_eq!(names_of(Some(&nested)), vec!["y".to_string()]);
}

#[test]
fn counting_keeps_first_occurrence_order() {
    let mut counts: Vec<(String, usize)> = Vec::new();
    for name in ["b", "a", "b", "c", "a", "b"] {
        count_name(&mut counts, name);
    }
    assert_eq!(
        counts,
        vec![("b".to_string(), 3), ("a".to_string(), 2), ("c".to_string(), 1)]
    );
}

#[test]
fn classification_fills_posts_and_collections() {
    let mut posts = vec![
        post(
            "one",
            day(0),
            vec![
                ("categories".to_string(), Value::Sequence(vec![text("Rust Lang"), text("Web")])),
                ("tags".to_string(), text("Intro")),
            ],
        ),
        post("two", day(1), vec![("categories".to_string(), text("Web"))]),
        post("three", day(2), vec![("title".to_string(), text("three"))]),
    ];
    let (categories, tags) = classify(&mut posts);
    assert_eq!(posts[0].categories, vec!["Rust Lang".to_string(), "Web".to_string()]);
    assert_eq!(posts[0].tags, vec!["Intro".to_string()]);
    assert_eq!(posts[1].categories, vec!["Web".to_string()]);
    assert!(posts[1].tags.is_empty());
    assert!(posts[2].categories.is_empty());

    assert_eq!(categories.len(), 2);
    assert_eq!(categories[0].name, "Rust Lang");
    assert_eq!(categories[0].slug, "rust-lang");
    assert_eq!(categories[0].path, "categories/rust lang");
    assert_eq!(categories[0].parent, None);
    assert_eq!(categories[0].post_count, 1);
    assert_eq!(categories[1].name, "Web");
    assert_eq!(categories[1].post_count, 2);
    assert_eq!(tags.len(), 1);
    assert_eq!(tags[0].name, "Intro");
    assert_eq!(tags[0].slug, "intro");
    assert_eq!(tags[0].path, "tags/intro");
    assert_eq!(tags[0].post_count, 1);
}

#[test]
fn classification_is_idempotent() {
    let mut posts = vec![
        post("one", day(0), vec![("categories".to_string(), Value::Sequence(vec![text("a"), text("b")]))]),
        post("two", day(1), vec![("tags".to_string(), text("t"))]),
    ];
    let (categories, tags) = classify(&mut posts);
    let first = format!("{:?}{:?}{:?}", posts, categories, tags);
    let (categories, tags) = classify(&mut posts);
    let second = format!("{:?}{:?}{:?}", posts, categories, tags);
    assert_eq!(first, second);
}

#[test]
fn pagination_covers_every_post_once() {
    for (total, size) in [(0usize, 3usize), (1, 3), (3, 3), (4, 3), (10, 3), (7, 1), (5, 10)] {
        let spans = paginate(total, size);
        assert_eq!(spans.len(), (total + size - 1) / size);
        let mut next = 0;
        for (k, span) in spans.iter().enumerate() {
            assert_eq!(span.number, k + 1);
            assert_eq!(span.start, next);
            assert!(span.end > span.start);
            assert!(span.end - span.start <= size);
            next = span.end;
        }
        assert_eq!(next, total);
    }
    let spans = paginate(10, 4);
    assert_eq!((spans[2].start, spans[2].end), (8, 10));
}

#[test]
fn newest_posts_come_first_and_ties_keep_their_order() {
    let posts = vec![
        post("old", day(0), Vec::new()),
        post("new", day(2), Vec::new()),
        post("mid-a", day(1), Vec::new()),
        post("mid-b", day(1), Vec::new()),
    ];
    let sorted = sort_newest_first(posts);
    let titles: Vec<&str> = sorted.iter().map(|p| p.title.as_str()).collect();
    assert_eq!(titles, vec!["new", "mid-a", "mid-b", "old"]);
}

#[test]
fn only_markdown_files_are_post_sources() {
    assert!(is_post_source("source/_posts/hello.md", true));
    assert!(!is_post_source("source/_posts/hello.md", false));
    assert!(!is_post_source("source/_posts/hello.markdown", true));
    assert!(!is_post_source("source/_posts/hello", true));
}

#[test]
fn front_matter_is_split_from_the_body() {
    let host: PluginManager<ExamplePlugin> =
        PluginManager::new("/site".to_string(), PluginContext::default());
    let source = SourceFile {
        path: "home.md".to_string(),
        content: "---\ntitle: Home\ntags:\n  - a\n  - b\n---\nOther stuff".to_string(),
        modified: day(0),
    };
    let loaded = load_document(&host, &source, day(1)).unwrap();
    assert_eq!(loaded.content, "<p>Other stuff</p>\n");
    assert_eq!(loaded.title, "Home");
    assert_eq!(
        names_of(find(&loaded.front_matter, "tags")),
        vec!["a".to_string(), "b".to_string()]
    );
    let none = SourceFile {
        path: "home.md".to_string(),
        content: "no front matter here".to_string(),
        modified: day(0),
    };
    assert!(load_document(&host, &none, day(1)).is_none());
    let empty = SourceFile {
        path: "home.md".to_string(),
        content: "---\n---\nbody".to_string(),
        modified: day(0),
    };
    assert!(load_document(&host, &empty, day(1)).is_none());
}

#[test]
fn post_is_built_with_fallbacks() {
    let built = build_post(
        "src/hello.md",
        Some("hello"),
        Value::Mapping(vec![("layout".to_string(), text("page"))]),
        day(0),
        "<p>x</p>".to_string(),
        "<p>y</p>".to_string(),
    );
    assert_eq!(built.title, "hello");
    assert_eq!(built.layout, "page");
    assert_eq!(built.path, "posts/hello.html");
    assert_eq!(built.permalink, "posts/hello.html");
    assert_eq!(built.content, "<p>x</p>");
    assert_eq!(built.rendered_content, Some("<p>y</p>".to_string()));
    assert_eq!(built.updated, Some(day(0)));
    assert!(built.comments);
    assert!(built.categories.is_empty());
    assert_eq!(built.front_matter.len(), 1);

    let bare = build_post("x", None, Value::Null, day(0), String::new(), String::new());
    assert_eq!(bare.title, "Untitled");
    assert_eq!(bare.layout, "post");
    assert_eq!(bare.path, "posts/unknown.html");
    assert!(bare.front_matter.is_empty());
}

#[test]
fn document_is_loaded_through_the_pipeline() {
    let host: PluginManager<ExamplePlugin> =
        PluginManager::new("/site".to_string(), PluginContext::default());
    let source = SourceFile {
        path: "source/_posts/hello-world.md".to_string(),
        content: "---\ntitle: Hello World\ndate: 2023-01-01 12:00:00\ncategories:\n  - guide\n---\n\n# Welcome\n".to_string(),
        modified: day(0),
    };
    let loaded = load_document(&host, &source, day(5)).unwrap();
    assert_eq!(loaded.title, "Hello World");
    assert_eq!(loaded.date.seconds, 1_672_574_400);
    assert_eq!((loaded.date.year, loaded.date.month, loaded.date.day), (2023, 1, 1));
    assert_eq!((loaded.date.hour, loaded.date.minute, loaded.date.second), (12, 0, 0));
    assert_eq!(loaded.content, "<h1>Welcome</h1>\n");
    assert_eq!(loaded.rendered_content, Some("<h1>Welcome</h1>\n".to_string()));
    assert_eq!(loaded.path, "posts/hello-world.html");
    assert_eq!(loaded.source, "source/_posts/hello-world.md");

    let undated = SourceFile {
        path: "a.md".to_string(),
        content: "---\ntitle: T\n---\nbody".to_string(),
        modified: day(3),
    };
    assert_eq!(load_document(&host, &undated, day(5)).unwrap().date, day(3));

    let odd = SourceFile {
        path: "a.md".to_string(),
        content: "---\ntitle: T\ndate: tomorrow\n---\nbody".to_string(),
        modified: day(3),
    };
    assert_eq!(load_document(&host, &odd, day(5)).unwrap().date, day(5));

    let zoned = SourceFile {
        path: "a.md".to_string(),
        content: "---\ndate: 2023-01-01 12:00:00 +0800\n---\nbody".to_string(),
        modified: day(3),
    };
    let z = load_document(&host, &zoned, day(5)).unwrap();
    assert_eq!(z.date.seconds, 1_672_545_600);
    assert_eq!(z.date.hour, 4);
    assert_eq!(z.title, "a");

    let plain = SourceFile { path: "b.md".to_string(), content: "just text".to_string(), modified: day(0) };
    assert!(load_document(&host, &plain, day(5)).is_none());
}
