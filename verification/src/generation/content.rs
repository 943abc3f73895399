//! Loading documents: from the text of a source file to a post.

use vstd::prelude::*;
use vstd::string::*;
use crate::models::types::{Post, Timestamp};
use crate::models::value::{find, lookup, Number, Plain, Value};
use crate::plugins::manager::PluginManager;
use crate::plugins::{transform, ContentType, Plugin, PluginRecord};
use crate::text::{concat, same_text};
use crate::utils::markdown::{markdown_html, to_html, MarkdownOptions};
use crate::utils::time::{consistent, is_date_of, resolve_date};
use crate::utils::{extension_of, file_stem_of, path_extension, path_file_stem, reversed};

verus! {

#[verifier::external_type_specification]
#[verifier::external_body]
pub struct ExPod(gray_matter::Pod);

/// A source text taken apart: the metadata of its front-matter block as
/// `gray_matter` parsed it, if it has one, and the text that follows the
/// block.
pub struct FrontMatter {
    pub data: Option<gray_matter::Pod>,
    pub content: String,
}

/// What `gray_matter` makes of a source text: whether it finds a
/// front-matter block with metadata in it, the text it leaves as the body,
/// and what the metadata holds (null where there is none).
pub uninterp spec fn front_matter(text: Seq<char>) -> (bool, Seq<char>, Plain);

/// Whether a source text begins with a front-matter block that holds
/// metadata.
pub open spec fn has_front_matter(text: Seq<char>) -> bool {
    front_matter(text).0
}

/// The body of a source text: what is left without the front-matter block.
pub open spec fn front_matter_body(text: Seq<char>) -> Seq<char> {
    front_matter(text).1
}

/// What the metadata of a source text holds.
pub open spec fn front_matter_data(text: Seq<char>) -> Plain {
    front_matter(text).2
}

/// What a value of `gray_matter` holds, as a plain value: a hash as the map
/// from its keys to what they are bound to, a real number as its bit
/// pattern.
pub uninterp spec fn pod_content(pod: gray_matter::Pod) -> Plain;

/// Converts the metadata that `gray_matter` parsed, variant for variant. A
/// real number is kept as its bit pattern. The entries of a hash come in the
/// order in which the hash hands them out, of which nothing is promised; the
/// keys of a hash differ, so every key is bound to what the hash binds it to.
#[verifier::external_body]
pub(crate) fn pod_to_value(pod: gray_matter::Pod) -> (r: Value)
    ensures
        r.plain() == pod_content(pod),
{
    match pod {
        gray_matter::Pod::Null => Value::Null,
        gray_matter::Pod::String(s) => Value::String(s),
        gray_matter::Pod::Integer(i) => Value::Number(Number::Integer(i)),
        gray_matter::Pod::Float(x) => Value::Number(Number::Real(x.to_bits())),
        gray_matter::Pod::Boolean(b) => Value::Bool(b),
        gray_matter::Pod::Array(a) => Value::Sequence(a.into_iter().map(pod_to_value).collect()),
        gray_matter::Pod::Hash(h) => Value::Mapping(
            h.into_iter().map(|(k, v)| (k, pod_to_value(v))).collect(),
        ),
    }
}

/// Takes a source text apart.
///
/// Calls `gray_matter::Matter::<YAML>::parse`. Whether metadata is found,
/// the text after the block and what the metadata holds depend on the input
/// alone and are named.
#[verifier::external_body]
pub(crate) fn parse_front_matter(text: &str) -> (r: FrontMatter)
    ensures
        match r.data {
            Some(pod) => front_matter(text@) == (true, r.content@, pod_content(pod)),
            None => front_matter(text@) == (false, r.content@, Plain::Null),
        },
{
    let parsed = gray_matter::Matter::<gray_matter::engine::YAML>::new().parse(text);
    FrontMatter { data: parsed.data, content: parsed.content }
}

/// A file of the source tree, read.
#[derive(Clone, Debug)]
pub struct SourceFile {
    /// The path of the file.
    pub path: String,
    /// The text of the file.
    pub content: String,
    /// When the file was last changed.
    pub modified: Timestamp,
}

/// Whether a walked entry is the source of a post: a regular file with the
/// extension `md`.
pub open spec fn post_source(path: Seq<char>, is_file: bool) -> bool {
    is_file && path_extension(path) == Some("md"@)
}

/// Tells whether a walked entry is the source of a post.
pub fn is_post_source(path: &str, is_file: bool) -> (r: bool)
    ensures
        r == post_source(path@, is_file),
{
    if !is_file {
        return false;
    }
    match extension_of(path) {
        Some(e) => same_text(e.as_str(), "md"),
        None => false,
    }
}

/// The text bound to `key` in the metadata, if the metadata is a mapping that
/// binds `key` to a text.
pub open spec fn text_entry(data: Value, key: Seq<char>) -> Option<Seq<char>> {
    match data {
        Value::Mapping(entries) => match lookup(entries@, key) {
            Some(Value::String(s)) => Some(s@),
            _ => None,
        },
        _ => None,
    }
}

/// Reads the text bound to `key` in the metadata.
pub fn text_of_entry<'a>(data: &'a Value, key: &str) -> (r: Option<&'a str>)
    ensures
        match r {
            Some(s) => text_entry(*data, key@) == Some(s@),
            None => text_entry(*data, key@).is_none(),
        },
{
    match data {
        Value::Mapping(entries) => match find(entries, key) {
            Some(Value::String(s)) => Some(s.as_str()),
            _ => None,
        },
        _ => None,
    }
}

/// The title of a document: the `title` of its metadata, else the stem of its
/// file name, else `Untitled`.
pub open spec fn title_of(data: Value, stem: Option<Seq<char>>) -> Seq<char> {
    match text_entry(data, "title"@) {
        Some(title) => title,
        None => match stem {
            Some(s) => s,
            None => "Untitled"@,
        },
    }
}

/// The layout of a document: the `layout` of its metadata, else `post`.
pub open spec fn layout_of(data: Value) -> Seq<char> {
    match text_entry(data, "layout"@) {
        Some(layout) => layout,
        None => "post"@,
    }
}

/// The address of a document: `posts/`, the stem of its file name (or
/// `unknown`), and `.html`.
pub open spec fn address_of(stem: Option<Seq<char>>) -> Seq<char> {
    "posts/"@ + (match stem {
        Some(s) => s,
        None => "unknown"@,
    }) + ".html"@
}

/// Whether `post` is the post made of a document with the given path, stem,
/// metadata, date and bodies.
pub open spec fn is_post_of(
    post: Post,
    path: Seq<char>,
    stem: Option<Seq<char>>,
    data: Value,
    date: Timestamp,
    html: Seq<char>,
    rendered: Seq<char>,
) -> bool {
    &&& post.title@ == title_of(data, stem)
    &&& post.date == date
    &&& post.updated == Some(date)
    &&& post.comments
    &&& post.layout@ == layout_of(data)
    &&& post.content@ == html
    &&& post.rendered_content matches Some(r) && r@ == rendered
    &&& post.source@ == path
    &&& post.path@ == address_of(stem)
    &&& post.permalink@ == address_of(stem)
    &&& post.excerpt is None
    &&& post.url is None
    &&& post.categories@.len() == 0
    &&& post.tags@.len() == 0
    &&& match data {
        Value::Mapping(entries) => post.front_matter == entries,
        _ => post.front_matter@.len() == 0,
    }
}

/// Makes the post of a document.
///
/// The post starts without categories and tags; the classification stage
/// fills them in.
pub fn build_post(
    path: &str,
    stem: Option<&str>,
    data: Value,
    date: Timestamp,
    html: String,
    rendered: String,
) -> (post: Post)
    ensures
        is_post_of(
            post,
            path@,
            match stem {
                Some(s) => Some(s@),
                None => None,
            },
            data,
            date,
            html@,
            rendered@,
        ),
{
    let title = match text_of_entry(&data, "title") {
        Some(t) => t.to_string(),
        None => match stem {
            Some(s) => s.to_string(),
            None => "Untitled".to_string(),
        },
    };
    let layout = match text_of_entry(&data, "layout") {
        Some(l) => l.to_string(),
        None => "post".to_string(),
    };
    let mut address = "posts/".to_string();
    match stem {
        Some(s) => address.append(s),
        None => address.append("unknown"),
    }
    address.append(".html");
    let permalink = address.clone();
    let front_matter = match data {
        Value::Mapping(entries) => entries,
        _ => Vec::new(),
    };
    Post {
        title,
        date,
        updated: Some(date),
        comments: true,
        layout,
        content: html,
        rendered_content: Some(rendered),
        source: path.to_string(),
        path: address,
        permalink,
        excerpt: None,
        url: None,
        categories: Vec::new(),
        tags: Vec::new(),
        front_matter,
    }
}

/// Where `post` goes in a list that is sorted from newest to oldest: before
/// the first post that is older, and so after every post of the same date.
pub open spec fn insertion_point(sorted: Seq<Post>, post: Post) -> int
    decreases sorted.len(),
{
    if sorted.len() == 0 {
        0
    } else if sorted[0].date.before(post.date) {
        0
    } else {
        1 + insertion_point(sorted.skip(1), post)
    }
}

/// The posts from newest to oldest; posts of the same date keep the order in
/// which they came.
pub open spec fn newest_first(posts: Seq<Post>) -> Seq<Post>
    decreases posts.len(),
{
    if posts.len() == 0 {
        Seq::empty()
    } else {
        let sorted = newest_first(posts.drop_last());
        sorted.insert(insertion_point(sorted, posts.last()), posts.last())
    }
}

/// Whether no post of the list is followed by a newer one.
pub open spec fn is_newest_first(posts: Seq<Post>) -> bool {
    forall|i: int, j: int| 0 <= i < j < posts.len() ==> !posts[i].date.before(posts[j].date)
}

proof fn lemma_insertion_point(sorted: Seq<Post>, post: Post)
    ensures
        0 <= insertion_point(sorted, post) <= sorted.len(),
        forall|k: int|
            0 <= k < insertion_point(sorted, post) ==> !(#[trigger] sorted[k]).date.before(
                post.date,
            ),
        insertion_point(sorted, post) < sorted.len() ==> sorted[insertion_point(
            sorted,
            post,
        )].date.before(post.date),
    decreases sorted.len(),
{
    if sorted.len() > 0 && !sorted[0].date.before(post.date) {
        let rest = sorted.skip(1);
        lemma_insertion_point(rest, post);
        assert forall|k: int| 0 <= k < insertion_point(sorted, post) implies !(
        #[trigger] sorted[k]).date.before(post.date) by {
            if k > 0 {
                assert(rest[k - 1] == sorted[k]);
            }
        }
        if insertion_point(sorted, post) < sorted.len() {
            assert(rest[insertion_point(rest, post)] == sorted[insertion_point(sorted, post)]);
        }
    }
}

/// Sorting posts from newest to oldest yields a list in which no post is
/// followed by a newer one and which holds the very same posts.
pub proof fn lemma_newest_first(posts: Seq<Post>)
    ensures
        is_newest_first(newest_first(posts)),
        newest_first(posts).len() == posts.len(),
        newest_first(posts).to_multiset() == posts.to_multiset(),
    decreases posts.len(),
{
    broadcast use vstd::seq_lib::group_to_multiset_ensures;

    if posts.len() > 0 {
        let front = posts.drop_last();
        let last = posts.last();
        lemma_newest_first(front);
        let sorted = newest_first(front);
        lemma_insertion_point(sorted, last);
        let at = insertion_point(sorted, last);
        let out = sorted.insert(at, last);
        assert forall|i: int, j: int| 0 <= i < j < out.len() implies !out[i].date.before(
            out[j].date,
        ) by {
            if j == at {
                assert(out[i] == sorted[i]);
            } else if i == at {
                assert(out[j] == sorted[j - 1]);
                assert(!sorted[at].date.before(sorted[j - 1].date) || j - 1 == at);
            } else {
                let a = if i < at {
                    i
                } else {
                    i - 1
                };
                let b = if j < at {
                    j
                } else {
                    j - 1
                };
                assert(out[i] == sorted[a] && out[j] == sorted[b]);
            }
        }
        assert(out.remove(at) =~= sorted);
        assert(out.to_multiset().remove(last) == sorted.to_multiset());
        assert(posts =~= front.push(last));
        assert(out.to_multiset() =~= posts.to_multiset());
    }
}

/// Sorts posts from newest to oldest, keeping the order of posts of the same
/// date.
pub fn sort_newest_first(posts: Vec<Post>) -> (sorted: Vec<Post>)
    ensures
        sorted@ == newest_first(posts@),
        is_newest_first(sorted@),
        sorted@.len() == posts@.len(),
        sorted@.to_multiset() == posts@.to_multiset(),
{
    let ghost all = posts@;
    let mut pending = reversed(posts);
    let mut sorted: Vec<Post> = Vec::new();
    let ghost mut done: int = 0;
    assert(all.take(0) =~= Seq::<Post>::empty());
    while pending.len() > 0
        invariant
            0 <= done,
            done + pending@.len() == all.len(),
            forall|k: int|
                0 <= k < pending@.len() ==> #[trigger] pending@[k] == all[all.len() - 1 - k],
            sorted@ == newest_first(all.take(done)),
        decreases pending@.len(),
    {
        let post = pending.pop().unwrap();
        proof {
            assert(post == all[done]);
            assert(all.take(done + 1).drop_last() == all.take(done));
            assert(all.take(done + 1).last() == all[done]);
            lemma_newest_first(all.take(done));
        }
        let mut at: usize = 0;
        assert(sorted@.skip(0) == sorted@);
        while at < sorted.len() && !sorted[at].date.is_before(&post.date)
            invariant
                at <= sorted@.len(),
                insertion_point(sorted@, post) == at + insertion_point(sorted@.skip(at as int), post),
            decreases sorted@.len() - at,
        {
            proof {
                let rest = sorted@.skip(at as int);
                assert(rest[0] == sorted@[at as int]);
                assert(rest.skip(1) == sorted@.skip(at + 1));
            }
            at = at + 1;
        }
        proof {
            let rest = sorted@.skip(at as int);
            if at < sorted@.len() {
                assert(rest[0] == sorted@[at as int]);
            }
            assert(insertion_point(rest, post) == 0);
        }
        sorted.insert(at, post);
        proof {
            done = done + 1;
        }
    }
    proof {
        assert(all.take(done) == all);
        lemma_newest_first(all);
    }
    sorted
}

/// The body of a document as HTML: what its source holds after the
/// front-matter block goes through the plugins as Markdown and is rendered.
pub open spec fn document_html<P: Plugin + ?Sized>(
    records: Seq<PluginRecord<P>>,
    source: Seq<char>,
) -> Seq<char> {
    markdown_html(
        transform(records, front_matter_body(source), ContentType::Markdown),
        MarkdownOptions::for_documents(),
    )
}

/// Whether `date` is the date of a document with the given metadata.
pub open spec fn is_document_date(
    data: Value,
    date: Timestamp,
    modified: Timestamp,
    now: Timestamp,
) -> bool {
    match text_entry(data, "date"@) {
        Some(text) => is_date_of(text, date, now),
        None => date == modified,
    }
}

/// Whether `post` is the post loaded from `source` by a host with the given
/// plugins: there is metadata with which it is the post of the document, its
/// body being the rendered source and its final content that body after the
/// HTML-stage transform.
pub open spec fn is_loaded_post<P: Plugin + ?Sized>(
    post: Post,
    source: SourceFile,
    records: Seq<PluginRecord<P>>,
    now: Timestamp,
) -> bool {
    exists|data: Value, date: Timestamp|
        is_loaded_with(post, source, records, now, data, date)
}

/// Whether `post` is the post loaded from `source` with the metadata `data`
/// and the date `date`: `data` holds what the front matter of the source
/// holds, `date` is the date of the document, and the post is made of them.
pub open spec fn is_loaded_with<P: Plugin + ?Sized>(
    post: Post,
    source: SourceFile,
    records: Seq<PluginRecord<P>>,
    now: Timestamp,
    data: Value,
    date: Timestamp,
) -> bool {
    &&& data.plain() == front_matter_data(source.content@)
    &&& is_document_date(data, date, source.modified, now)
    &&& is_post_of(
        post,
        source.path@,
        path_file_stem(source.path@),
        data,
        date,
        document_html(records, source.content@),
        transform(records, document_html(records, source.content@), ContentType::HTML),
    )
}

/// The text that plain metadata binds to `key`, if it is a table that binds
/// `key` to a text.
pub open spec fn plain_text(data: Plain, key: Seq<char>) -> Option<Seq<char>> {
    match data {
        Plain::Table(table) => if table.contains_key(key) {
            match table[key] {
                Plain::Text(s) => Some(s),
                _ => None,
            }
        } else {
            None
        },
        _ => None,
    }
}

/// The texts among plain values, in order.
pub open spec fn plain_texts(items: Seq<Plain>) -> Seq<Seq<char>>
    decreases items.len(),
{
    if items.len() == 0 {
        Seq::empty()
    } else {
        let before = plain_texts(items.drop_last());
        match items.last() {
            Plain::Text(s) => before.push(s),
            _ => before,
        }
    }
}

/// The names that plain metadata lists under `key`: the texts of a list, the
/// text itself where the key is bound to a single text, and nothing for any
/// other shape or for an absent key.
pub open spec fn plain_names(data: Plain, key: Seq<char>) -> Seq<Seq<char>> {
    match data {
        Plain::Table(table) => if table.contains_key(key) {
            match table[key] {
                Plain::List(items) => plain_texts(items),
                Plain::Text(s) => seq![s],
                _ => Seq::empty(),
            }
        } else {
            Seq::empty()
        },
        _ => Seq::empty(),
    }
}

proof fn lemma_strings_plain(items: Seq<Value>, plains: Seq<Plain>)
    requires
        plains.len() == items.len(),
        forall|i: int| 0 <= i < items.len() ==> #[trigger] plains[i] == items[i].plain(),
    ensures
        crate::generation::classify::strings_of(items) == plain_texts(plains),
    decreases items.len(),
{
    if items.len() > 0 {
        let shorter = plains.drop_last();
        assert forall|i: int| 0 <= i < items.drop_last().len() implies #[trigger] shorter[i]
            == items.drop_last()[i].plain() by {
            assert(shorter[i] == plains[i]);
        }
        lemma_strings_plain(items.drop_last(), shorter);
        assert(plains.last() == items.last().plain());
    }
}

/// What a post takes from its metadata is a function of what the metadata
/// holds: the text bound to a key, and the names listed under a key, can be
/// read off the plain value.
pub proof fn lemma_metadata_by_content(data: Value, key: Seq<char>)
    ensures
        text_entry(data, key) == plain_text(data.plain(), key),
        data matches Value::Mapping(entries) ==> crate::generation::classify::names_in(
            lookup(entries@, key),
        ) == plain_names(data.plain(), key),
{
    match data {
        Value::Mapping(entries) => {
            crate::models::value::lemma_plain_lookup(entries, key);
            match lookup(entries@, key) {
                Some(Value::Sequence(items)) => {
                    let plains = Value::Sequence(items).plain()->List_0;
                    lemma_strings_plain(items@, plains);
                },
                _ => {},
            }
        },
        _ => {},
    }
}

/// The title of a loaded post and the names it lists are those of the front
/// matter of its source.
pub proof fn lemma_loaded_from_front_matter<P: Plugin + ?Sized>(
    post: Post,
    source: SourceFile,
    records: Seq<PluginRecord<P>>,
    now: Timestamp,
    key: Seq<char>,
)
    requires
        is_loaded_post(post, source, records, now),
    ensures
        ({
            let data = front_matter_data(source.content@);
            &&& post.title@ == match plain_text(data, "title"@) {
                Some(title) => title,
                None => title_of(Value::Null, path_file_stem(source.path@)),
            }
            &&& crate::generation::classify::listed(post, key) == plain_names(data, key)
        }),
{
    let (data, date) = choose|data: Value, date: Timestamp|
        is_loaded_with(post, source, records, now, data, date);
    lemma_metadata_by_content(data, "title"@);
    lemma_metadata_by_content(data, key);
    match data {
        Value::Mapping(entries) => {},
        _ => {
            assert(post.front_matter@.len() == 0);
        },
    }
}

/// Loads one document.
///
/// The front matter of the source is parsed; the text after it goes through
/// the Markdown-stage transform, is rendered as HTML and goes through the
/// HTML-stage transform. A source without front matter yields no post, and
/// every other source yields one.
pub fn load_document<P: Plugin + ?Sized>(
    host: &PluginManager<P>,
    source: &SourceFile,
    now: Timestamp,
) -> (r: Option<Post>)
    ensures
        r is Some <==> yields_post(*source),
        r matches Some(post) ==> is_loaded_post(post, *source, host.records(), now),
        r matches Some(post) ==> (consistent(now) && consistent(source.modified) ==> consistent(
            post.date,
        )),
{
    let parsed = parse_front_matter(source.content.as_str());
    let FrontMatter { data, content } = parsed;
    let data = match data {
        Some(pod) => pod_to_value(pod),
        None => {
            return None;
        },
    };
    let stem = file_stem_of(source.path.as_str());
    let date = resolve_date(text_of_entry(&data, "date"), source.modified, now);
    let body = match host.process_content(content.as_str(), ContentType::Markdown) {
        Ok(text) => text,
        Err(_) => content.clone(),
    };
    let html = to_html(body.as_str(), MarkdownOptions::document());
    let rendered = match host.process_content(html.as_str(), ContentType::HTML) {
        Ok(text) => text,
        Err(_) => html.clone(),
    };
    let post = match &stem {
        Some(s) => build_post(source.path.as_str(), Some(s.as_str()), data, date, html, rendered),
        None => build_post(source.path.as_str(), None, data, date, html, rendered),
    };
    assert(is_loaded_with(post, *source, host.records(), now, data, date));
    Some(post)
}

/// Whether `found` can be the posts loaded from `sources`, in order: every
/// post was loaded from a source, and the posts follow the order of their
/// sources.
pub open spec fn loaded_in_order<P: Plugin + ?Sized>(
    found: Seq<Post>,
    sources: Seq<SourceFile>,
    records: Seq<PluginRecord<P>>,
    now: Timestamp,
) -> bool {
    exists|at: Seq<int>| loaded_at(found, sources, records, now, at)
}

/// Whether a document comes out of `source`: it begins with a front-matter
/// block that holds metadata.
pub open spec fn yields_post(source: SourceFile) -> bool {
    has_front_matter(source.content@)
}

/// Whether the `k`-th post was loaded from the source at position `at[k]`,
/// the positions rising, and no source that yields a post left out.
pub open spec fn loaded_at<P: Plugin + ?Sized>(
    found: Seq<Post>,
    sources: Seq<SourceFile>,
    records: Seq<PluginRecord<P>>,
    now: Timestamp,
    at: Seq<int>,
) -> bool {
    &&& at.len() == found.len()
    &&& (forall|k: int| 0 <= k < at.len() ==> 0 <= #[trigger] at[k] < sources.len())
    &&& (forall|k: int, l: int| 0 <= k < l < at.len() ==> at[k] < at[l])
    &&& (forall|k: int|
        0 <= k < at.len() ==> is_loaded_post(#[trigger] found[k], sources[at[k]], records, now))
    &&& (forall|j: int|
        0 <= j < sources.len() ==> (at.contains(j) <==> yields_post(#[trigger] sources[j])))
}

/// Loads every document of `sources`, in order.
pub fn load_documents<P: Plugin + ?Sized>(
    host: &PluginManager<P>,
    sources: &Vec<SourceFile>,
    now: Timestamp,
) -> (found: Vec<Post>)
    ensures
        loaded_in_order(found@, sources@, host.records(), now),
        found@.len() <= sources@.len(),
        consistent(now) && (forall|j: int|
            0 <= j < sources@.len() ==> consistent((#[trigger] sources@[j]).modified))
            ==> forall|k: int| 0 <= k < found@.len() ==> consistent((#[trigger] found@[k]).date),
{
    let mut found: Vec<Post> = Vec::new();
    let ghost mut at: Seq<int> = Seq::empty();
    let mut i: usize = 0;
    while i < sources.len()
        invariant
            i <= sources.len(),
            at.len() == found@.len(),
            found@.len() <= i,
            forall|k: int| 0 <= k < at.len() ==> 0 <= #[trigger] at[k] < i,
            forall|k: int, l: int| 0 <= k < l < at.len() ==> at[k] < at[l],
            forall|k: int|
                0 <= k < at.len() ==> is_loaded_post(
                    #[trigger] found@[k],
                    sources@[at[k]],
                    host.records(),
                    now,
                ),
            forall|j: int|
                0 <= j < i ==> (at.contains(j) <==> yields_post(#[trigger] sources@[j])),
            consistent(now) && (forall|j: int|
                0 <= j < sources@.len() ==> consistent((#[trigger] sources@[j]).modified))
                ==> forall|k: int| 0 <= k < found@.len() ==> consistent((#[trigger] found@[k]).date),
        decreases sources.len() - i,
    {
        let ghost before = at;
        match load_document(host, &sources[i], now) {
            Some(post) => {
                found.push(post);
                proof {
                    at = at.push(i as int);
                    assert(at[at.len() - 1] == i);
                }
            },
            None => {},
        }
        proof {
            assert forall|j: int| 0 <= j < i + 1 implies (at.contains(j) <==> yields_post(#[trigger] sources@[j])) by {
                if before.contains(j) {
                    let k = choose|k: int| 0 <= k < before.len() && before[k] == j;
                    assert(at[k] == j);
                }
                if at.contains(j) && j < i {
                    let k = choose|k: int| 0 <= k < at.len() && at[k] == j;
                    assert(before[k] == j);
                }
            }
        }
        i = i + 1;
    }
    assert(loaded_at(found@, sources@, host.records(), now, at));
    found
}

} // verus!
