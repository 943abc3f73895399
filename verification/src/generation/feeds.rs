//! The RSS and Atom feeds.

use vstd::prelude::*;
use vstd::string::*;
use crate::generation::content::{insertion_point, lemma_newest_first, newest_first};
use crate::generation::engine::text_or;
use crate::generation::generator::{HtmlGenerator, OutputFile};
use crate::models::config::Config;
use crate::models::types::{Post, Timestamp};
use crate::plugins::error::PluginError;
use crate::plugins::Plugin;
use crate::text::{join_path, path_join, trim_end_char, trimmed_end};

use crate::utils::time::{civil_fields, civil_of};

verus! {

/// How many posts the RSS feed carries.
pub const RSS_LIMIT: usize = 10;

/// How many posts the Atom feed carries.
pub const ATOM_LIMIT: usize = 20;

/// The first second of the year 0 and the last second of the year 9999,
/// counted from the Unix epoch: the range of dates that can be written in
/// the date format of RSS.
pub const FIRST_RSS_SECOND: i64 = -62167219200;

pub const LAST_RSS_SECOND: i64 = 253402300799;

/// The posts at the given positions.
pub open spec fn picked(posts: Seq<Post>, order: Seq<usize>) -> Seq<Post> {
    order.map_values(|i: usize| posts[i as int])
}

/// The positions of the posts from newest to oldest; posts of the same date
/// keep their order.
pub fn order_newest_first(posts: &Vec<Post>) -> (order: Vec<usize>)
    ensures
        order@.len() == posts@.len(),
        forall|k: int| 0 <= k < order@.len() ==> (#[trigger] order@[k]) < posts@.len(),
        picked(posts@, order@) == newest_first(posts@),
{
    let mut order: Vec<usize> = Vec::new();
    let mut n: usize = 0;
    assert(picked(posts@, order@) =~= newest_first(posts@.take(0)));
    while n < posts.len()
        invariant
            n <= posts.len(),
            order@.len() == n,
            forall|k: int| 0 <= k < order@.len() ==> (#[trigger] order@[k]) < n,
            picked(posts@, order@) == newest_first(posts@.take(n as int)),
        decreases posts.len() - n,
    {
        let ghost sorted = picked(posts@, order@);
        let post = &posts[n];
        proof {
            assert(posts@.take(n + 1).drop_last() == posts@.take(n as int));
            assert(posts@.take(n + 1).last() == posts@[n as int]);
        }
        let mut at: usize = 0;
        assert(sorted.skip(0) == sorted);
        while at < order.len() && !posts[order[at]].date.is_before(&post.date)
            invariant
                at <= order@.len(),
                order@.len() == n,
                n < posts.len(),
                sorted == picked(posts@, order@),
                forall|k: int| 0 <= k < order@.len() ==> (#[trigger] order@[k]) < n,
                insertion_point(sorted, *post) == at + insertion_point(sorted.skip(at as int), *post),
            decreases order@.len() - at,
        {
            proof {
                let rest = sorted.skip(at as int);
                assert(rest[0] == sorted[at as int]);
                assert(rest.skip(1) == sorted.skip(at + 1));
            }
            at = at + 1;
        }
        proof {
            let rest = sorted.skip(at as int);
            if at < sorted.len() {
                assert(rest[0] == sorted[at as int]);
            }
            assert(insertion_point(rest, *post) == 0);
        }
        order.insert(at, n);
        assert(picked(posts@, order@) =~= sorted.insert(at as int, *post));
        n = n + 1;
    }
    assert(posts@.take(n as int) == posts@);
    order
}

/// One entry of a feed.
#[derive(Clone, Debug)]
pub struct FeedEntry {
    pub title: String,
    /// The address of the post.
    pub link: String,
    /// The permanent identifier of the post.
    pub guid: String,
    pub date: Timestamp,
    pub summary: String,
}

/// The address of a post: the address of the site without slashes at its
/// end, a slash, and the path of the post.
pub open spec fn post_link(config: Config, post: Post) -> Seq<char> {
    trimmed_end(text_or(config.url, Seq::empty()), '/') + "/"@ + post.path@
}

/// Whether `entry` is the feed entry of `post`.
pub open spec fn is_entry_of(entry: FeedEntry, config: Config, post: Post) -> bool {
    &&& entry.title@ == post.title@
    &&& entry.link@ == post_link(config, post)
    &&& entry.guid@ == post.permalink@
    &&& entry.date == post.date
    &&& entry.summary@ == text_or(post.excerpt, Seq::empty())
}

/// Makes the feed entry of a post.
pub fn feed_entry(config: &Config, post: &Post) -> (entry: FeedEntry)
    ensures
        is_entry_of(entry, *config, *post),
{
    let mut link = match &config.url {
        Some(url) => trim_end_char(url.as_str(), '/'),
        None => {
            let empty = String::new();
            assert(trimmed_end(empty@, '/') == empty@);
            empty
        },
    };
    link.append("/");
    link.append(post.path.as_str());
    FeedEntry {
        title: post.title.clone(),
        link,
        guid: post.permalink.clone(),
        date: post.date,
        summary: match &post.excerpt {
            Some(excerpt) => excerpt.clone(),
            None => String::new(),
        },
    }
}

/// The smaller of two lengths.
pub open spec fn at_most(n: nat, limit: nat) -> nat {
    if n <= limit {
        n
    } else {
        limit
    }
}

/// Whether `entries` are the entries of a feed of `posts` with room for
/// `limit` posts: the newest posts, newest first.
pub open spec fn are_entries_of(
    entries: Seq<FeedEntry>,
    config: Config,
    posts: Seq<Post>,
    limit: nat,
) -> bool {
    &&& entries.len() == at_most(posts.len(), limit)
    &&& (forall|k: int|
        0 <= k < entries.len() ==> is_entry_of(
            #[trigger] entries[k],
            config,
            newest_first(posts)[k],
        ))
}

/// The entries of a feed with room for `limit` posts.
pub fn feed_entries(config: &Config, posts: &Vec<Post>, limit: usize) -> (entries: Vec<FeedEntry>)
    ensures
        are_entries_of(entries@, *config, posts@, limit as nat),
{
    let order = order_newest_first(posts);
    let mut entries: Vec<FeedEntry> = Vec::new();
    let mut k: usize = 0;
    while k < order.len() && k < limit
        invariant
            k <= order@.len(),
            k <= limit,
            order@.len() == posts@.len(),
            entries@.len() == k,
            forall|j: int| 0 <= j < order@.len() ==> (#[trigger] order@[j]) < posts@.len(),
            picked(posts@, order@) == newest_first(posts@),
            forall|j: int|
                0 <= j < k ==> is_entry_of(#[trigger] entries@[j], *config, newest_first(posts@)[j]),
        decreases order@.len() - k,
    {
        assert(picked(posts@, order@)[k as int] == posts@[order@[k as int] as int]);
        entries.push(feed_entry(config, &posts[order[k]]));
        k = k + 1;
    }
    entries
}

/// The date of an instant in the format of RFC 2822, as `chrono` writes it.
pub uninterp spec fn rfc2822_text(seconds: int, nanos: int) -> Option<Seq<char>>;

/// Calls `chrono::DateTime::from_timestamp` and `DateTime::to_rfc2822`. The
/// latter panics on years outside 0 to 9999, which the bounds on the seconds
/// keep out. The text depends on the instant alone; the contract names it.
#[verifier::external_body]
fn rfc2822_of(seconds: i64, nanos: u32) -> (r: Option<String>)
    requires
        FIRST_RSS_SECOND <= seconds <= LAST_RSS_SECOND,
    ensures
        match r {
            Some(text) => rfc2822_text(seconds as int, nanos as int) == Some(text@),
            None => rfc2822_text(seconds as int, nanos as int).is_none(),
        },
{
    chrono::DateTime::from_timestamp(seconds, nanos).map(|d| d.to_rfc2822())
}

/// The publication date of a feed entry: the date in the format of RFC 2822,
/// or nothing for a date that the format cannot hold.
pub open spec fn pub_date_of(date: Timestamp) -> Seq<char> {
    if FIRST_RSS_SECOND <= date.seconds <= LAST_RSS_SECOND {
        match rfc2822_text(date.seconds as int, date.nanos as int) {
            Some(text) => text,
            None => Seq::empty(),
        }
    } else {
        Seq::empty()
    }
}

/// Writes the publication date of a feed entry.
pub fn pub_date(date: &Timestamp) -> (r: String)
    ensures
        r@ == pub_date_of(*date),
{
    if FIRST_RSS_SECOND <= date.seconds && date.seconds <= LAST_RSS_SECOND {
        match rfc2822_of(date.seconds, date.nanos) {
            Some(text) => text,
            None => String::new(),
        }
    } else {
        String::new()
    }
}

/// One item of an RSS channel, as plain values: title, link, identifier,
/// whether the identifier is a permalink, publication date, description.
pub struct RssItem {
    pub title: String,
    pub link: String,
    pub guid: String,
    pub permalink: bool,
    pub pub_date: String,
    pub description: String,
}

impl RssItem {
    pub open spec fn view(&self) -> (Seq<char>, Seq<char>, Seq<char>, bool, Seq<char>, Seq<char>) {
        (self.title@, self.link@, self.guid@, self.permalink, self.pub_date@, self.description@)
    }
}

/// The RSS document that the `rss` crate writes for a channel with the given
/// title, link, description, language and items.
pub uninterp spec fn rss_document(
    title: Seq<char>,
    link: Seq<char>,
    description: Seq<char>,
    language: Seq<char>,
    items: Seq<(Seq<char>, Seq<char>, Seq<char>, bool, Seq<char>, Seq<char>)>,
) -> Seq<char>;

/// Builds an `rss::Channel` with one `rss::Item` for each item and calls its
/// `to_string`. The document depends on the arguments alone; the contract
/// names it.
#[verifier::external_body]
fn rss_xml(title: &str, link: &str, description: &str, language: &str, items: &Vec<RssItem>) -> (xml:
    String)
    ensures
        xml@ == rss_document(
            title@,
            link@,
            description@,
            language@,
            items@.map_values(|i: RssItem| i.view()),
        ),
{
    let rows = items.iter().map(|i| rss::Item {
        title: Some(i.title.clone()),
        link: Some(i.link.clone()),
        guid: Some(rss::Guid { value: i.guid.clone(), permalink: i.permalink }),
        pub_date: Some(i.pub_date.clone()),
        description: Some(i.description.clone()),
        ..Default::default()
    });
    let mut channel = rss::Channel::default();
    channel.set_title(title);
    channel.set_link(link);
    channel.set_description(description);
    channel.set_language(Some(language.to_string()));
    channel.set_items(rows.collect::<Vec<rss::Item>>());
    channel.to_string()
}

/// The item of a feed entry; its identifier is a permalink.
pub open spec fn rss_item_of(entry: FeedEntry) -> (
    Seq<char>,
    Seq<char>,
    Seq<char>,
    bool,
    Seq<char>,
    Seq<char>,
) {
    (entry.title@, entry.link@, entry.guid@, true, pub_date_of(entry.date), entry.summary@)
}

/// The RSS feed of a site with the given entries.
pub open spec fn rss_of(config: Config, entries: Seq<FeedEntry>) -> Seq<char> {
    rss_document(
        config.title@,
        text_or(config.url, Seq::empty()),
        text_or(config.description, Seq::empty()),
        text_or(config.language, Seq::empty()),
        entries.map_values(|e: FeedEntry| rss_item_of(e)),
    )
}

/// Writes the RSS feed of a site with the given entries.
pub fn write_rss(config: &Config, entries: &Vec<FeedEntry>) -> (xml: String)
    ensures
        xml@ == rss_of(*config, entries@),
{
    let mut items: Vec<RssItem> = Vec::new();
    let mut k: usize = 0;
    while k < entries.len()
        invariant
            k <= entries.len(),
            items@.len() == k,
            forall|j: int| 0 <= j < k ==> (#[trigger] items@[j]).view() == rss_item_of(entries@[j]),
        decreases entries.len() - k,
    {
        let entry = &entries[k];
        items.push(
            RssItem {
                title: entry.title.clone(),
                link: entry.link.clone(),
                guid: entry.guid.clone(),
                permalink: true,
                pub_date: pub_date(&entry.date),
                description: entry.summary.clone(),
            },
        );
        k = k + 1;
    }
    assert(items@.map_values(|i: RssItem| i.view()) =~= entries@.map_values(
        |e: FeedEntry| rss_item_of(e),
    ));
    let link = match &config.url {
        Some(url) => url.clone(),
        None => String::new(),
    };
    let description = match &config.description {
        Some(d) => d.clone(),
        None => String::new(),
    };
    let language = match &config.language {
        Some(l) => l.clone(),
        None => String::new(),
    };
    rss_xml(
        config.title.as_str(),
        link.as_str(),
        description.as_str(),
        language.as_str(),
        &items,
    )
}

/// One entry of an Atom feed, as plain values: identifier and link, the
/// relation of the link, title, the instant of publication, summary.
pub struct AtomItem {
    pub id: String,
    pub rel: String,
    pub title: String,
    pub seconds: i64,
    pub nanos: u32,
    pub summary: String,
}

impl AtomItem {
    pub open spec fn view(&self) -> (Seq<char>, Seq<char>, Seq<char>, int, int, Seq<char>) {
        (self.id@, self.rel@, self.title@, self.seconds as int, self.nanos as int, self.summary@)
    }
}

/// The Atom document that the `atom_syndication` crate writes for a feed
/// with the given title, identifier, instant of update, subtitle, language
/// and entries.
pub uninterp spec fn atom_document(
    title: Seq<char>,
    id: Seq<char>,
    updated_seconds: int,
    updated_nanos: int,
    subtitle: Option<Seq<char>>,
    language: Seq<char>,
    items: Seq<(Seq<char>, Seq<char>, Seq<char>, int, int, Seq<char>)>,
) -> Seq<char>;

#[verifier::external_type_specification]
#[verifier::external_body]
pub struct ExAtomEntry(atom_syndication::Entry);

/// Fills an `atom_syndication::Entry` field by field: the identifier is also
/// the address of the one link, the instant is both update and publication.
/// The instant comes as `chrono` can hold it, or as the epoch.
#[verifier::external_body]
fn atom_entry(item: &AtomItem) -> atom_syndication::Entry {
    let date = chrono::DateTime::from_timestamp(item.seconds, item.nanos).unwrap_or_default();
    let mut link = atom_syndication::Link::default();
    link.set_href(item.id.clone());
    link.set_rel(item.rel.clone());
    let mut entry = atom_syndication::Entry::default();
    entry.set_id(item.id.clone());
    entry.set_title(atom_syndication::Text::plain(item.title.clone()));
    entry.set_links(vec![link]);
    entry.set_updated(date.fixed_offset());
    entry.set_published(Some(date.fixed_offset()));
    entry.set_summary(atom_syndication::Text::plain(item.summary.clone()));
    entry
}

/// Whether `chrono` can hold the instant, or the instant is the epoch.
pub open spec fn holdable(seconds: int, nanos: int) -> bool {
    civil_fields(seconds, nanos) is Some || (seconds == 0 && nanos == 0)
}

/// The instant as a feed carries it: an instant that `chrono` cannot hold
/// stands as the epoch.
pub open spec fn held(seconds: int, nanos: int) -> (int, int) {
    if civil_fields(seconds, nanos) is Some {
        (seconds, nanos)
    } else {
        (0, 0)
    }
}

/// Makes an instant fit for a feed.
pub fn hold(seconds: i64, nanos: u32) -> (r: (i64, u32))
    ensures
        (r.0 as int, r.1 as int) == held(seconds as int, nanos as int),
        holdable(r.0 as int, r.1 as int),
{
    match civil_of(seconds, nanos) {
        Some(_) => (seconds, nanos),
        None => (0, 0),
    }
}

/// Fills an `atom_syndication::Feed` and calls its `to_string`. The instants
/// come as `chrono` can hold them, or as the epoch. The document depends on
/// the arguments alone; the contract names it.
#[verifier::external_body]
fn atom_xml(
    title: &str,
    id: &str,
    updated: (i64, u32),
    subtitle: Option<&str>,
    language: &str,
    items: &Vec<AtomItem>,
) -> (xml: String)
    requires
        holdable(updated.0 as int, updated.1 as int),
        forall|k: int|
            0 <= k < items@.len() ==> holdable(
                (#[trigger] items@[k]).seconds as int,
                items@[k].nanos as int,
            ),
    ensures
        xml@ == atom_document(
            title@,
            id@,
            updated.0 as int,
            updated.1 as int,
            match subtitle {
                Some(s) => Some(s@),
                None => None,
            },
            language@,
            items@.map_values(|i: AtomItem| i.view()),
        ),
{
    let mut feed = atom_syndication::Feed::default();
    feed.set_title(title);
    feed.set_id(id);
    feed.set_updated(
        chrono::DateTime::from_timestamp(updated.0, updated.1).unwrap_or_default(),
    );
    feed.set_subtitle(subtitle.map(atom_syndication::Text::plain));
    feed.set_lang(Some(language.to_string()));
    feed.set_entries(items.iter().map(atom_entry).collect::<Vec<atom_syndication::Entry>>());
    feed.to_string()
}

/// The Atom item of a feed entry; its link is an `alternate` one, and a date
/// that `chrono` cannot hold stands as the epoch.
pub open spec fn atom_item_of(entry: FeedEntry) -> (
    Seq<char>,
    Seq<char>,
    Seq<char>,
    int,
    int,
    Seq<char>,
) {
    (
        entry.link@,
        "alternate"@,
        entry.title@,
        held(entry.date.seconds as int, entry.date.nanos as int).0,
        held(entry.date.seconds as int, entry.date.nanos as int).1,
        entry.summary@,
    )
}

/// The Atom feed of a site with the given entries, updated at `now`; where
/// `chrono` cannot hold `now`, at the epoch.
pub open spec fn atom_of(config: Config, entries: Seq<FeedEntry>, now: Timestamp) -> Seq<char> {
    atom_document(
        config.title@,
        text_or(config.url, Seq::empty()),
        held(now.seconds as int, now.nanos as int).0,
        held(now.seconds as int, now.nanos as int).1,
        match config.subtitle {
            Some(s) => Some(s@),
            None => None,
        },
        text_or(config.language, Seq::empty()),
        entries.map_values(|e: FeedEntry| atom_item_of(e)),
    )
}

/// Writes the Atom feed of a site with the given entries, updated at `now`.
pub fn write_atom(config: &Config, entries: &Vec<FeedEntry>, now: &Timestamp) -> (xml: String)
    ensures
        xml@ == atom_of(*config, entries@, *now),
{
    let mut items: Vec<AtomItem> = Vec::new();
    let mut k: usize = 0;
    while k < entries.len()
        invariant
            k <= entries.len(),
            items@.len() == k,
            forall|j: int| 0 <= j < k ==> (#[trigger] items@[j]).view() == atom_item_of(entries@[j]),
            forall|j: int|
                0 <= j < k ==> holdable(
                    (#[trigger] items@[j]).seconds as int,
                    items@[j].nanos as int,
                ),
        decreases entries.len() - k,
    {
        let entry = &entries[k];
        let date = hold(entry.date.seconds, entry.date.nanos);
        items.push(
            AtomItem {
                id: entry.link.clone(),
                rel: "alternate".to_string(),
                title: entry.title.clone(),
                seconds: date.0,
                nanos: date.1,
                summary: entry.summary.clone(),
            },
        );
        k = k + 1;
    }
    let updated = hold(now.seconds, now.nanos);
    assert(items@.map_values(|i: AtomItem| i.view()) =~= entries@.map_values(
        |e: FeedEntry| atom_item_of(e),
    ));
    let id = match &config.url {
        Some(url) => url.clone(),
        None => String::new(),
    };
    let language = match &config.language {
        Some(l) => l.clone(),
        None => String::new(),
    };
    match &config.subtitle {
        Some(subtitle) => atom_xml(
            config.title.as_str(),
            id.as_str(),
            updated,
            Some(subtitle.as_str()),
            language.as_str(),
            &items,
        ),
        None => atom_xml(
            config.title.as_str(),
            id.as_str(),
            updated,
            None,
            language.as_str(),
            &items,
        ),
    }
}

impl<'a, P: Plugin + ?Sized> HtmlGenerator<'a, P> {
    /// The RSS feed: `rss.xml` with the ten newest posts.
    pub fn generate_rss_feed(&self, posts: &Vec<Post>) -> (r: Result<OutputFile, PluginError>)
        ensures
            r matches Ok(file) && file.path@ == path_join(self.output_dir@, "rss.xml"@)
                && exists|entries: Seq<FeedEntry>|
                #[trigger] are_entries_of(entries, self.config, posts@, RSS_LIMIT as nat)
                    && file.content@ == rss_of(self.config, entries),
    {
        let entries = feed_entries(&self.config, posts, RSS_LIMIT);
        let content = write_rss(&self.config, &entries);
        Ok(OutputFile { path: join_path(self.output_dir.as_str(), "rss.xml"), content })
    }

    /// The Atom feed: `atom.xml` with the twenty newest posts, updated at
    /// `now`.
    pub fn generate_atom_feed(&self, posts: &Vec<Post>, now: &Timestamp) -> (r: Result<
        OutputFile,
        PluginError,
    >)
        ensures
            r matches Ok(file) && file.path@ == path_join(self.output_dir@, "atom.xml"@)
                && exists|entries: Seq<FeedEntry>|
                #[trigger] are_entries_of(entries, self.config, posts@, ATOM_LIMIT as nat)
                    && file.content@ == atom_of(self.config, entries, *now),
    {
        let entries = feed_entries(&self.config, posts, ATOM_LIMIT);
        let content = write_atom(&self.config, &entries, now);
        Ok(OutputFile { path: join_path(self.output_dir.as_str(), "atom.xml"), content })
    }
}

} // verus!
