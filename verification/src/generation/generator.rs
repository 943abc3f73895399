//! The emit stages: what one build writes, computed from the posts.

use vstd::prelude::*;
use vstd::string::*;
use crate::generation::groups::{
    all_filings, file_post, filings_of, grouped, groups_view, lemma_file_below, members_below,
    Group,
};
use crate::generation::html::{listing_page, write_listing_page, ListingKind};
use crate::models::config::Config;
use crate::models::types::{Post, Timestamp};
use crate::plugins::error::{PluginError, PluginHook};
use crate::plugins::manager::PluginManager;
use crate::plugins::{Plugin, PluginContext};
use crate::text::{
    clone_strings, join_path, path_join, signed_decimal, signed_decimal_string, texts,
    two_digit_string, two_digits,
};

verus! {

/// A file to be written: where, and what.
#[derive(Clone, Debug)]
pub struct OutputFile {
    pub path: String,
    pub content: String,
}

/// The month of an instant as `YYYY-MM`.
pub open spec fn month_key(date: Timestamp) -> Seq<char> {
    signed_decimal(date.year as int) + seq!['-'] + two_digits(date.month as nat)
}

/// Prints the month of an instant as `YYYY-MM`.
pub fn format_month(date: &Timestamp) -> (r: String)
    ensures
        r@ == month_key(*date),
{
    let mut out = signed_decimal_string(date.year as i64);
    out.push('-');
    let month = two_digit_string(date.month as u64);
    out.append(month.as_str());
    out
}

/// The names under which a post is filed for one kind of listing: its
/// categories, its tags, or the month of its date.
pub open spec fn filed_under(post: Post, kind: ListingKind) -> Seq<Seq<char>> {
    match kind {
        ListingKind::Category => texts(post.categories@),
        ListingKind::Tag => texts(post.tags@),
        ListingKind::Archive => seq![month_key(post.date)],
    }
}

/// For each post, the names under which it is filed.
pub open spec fn filed_lists(posts: Seq<Post>, kind: ListingKind) -> Seq<Seq<Seq<char>>> {
    posts.map_values(|p: Post| filed_under(p, kind))
}

/// The groups of one kind of listing: one group for each name, in the order
/// in which the names occur first, each with its posts in post order.
pub open spec fn listing_groups(posts: Seq<Post>, kind: ListingKind) -> Seq<(Seq<char>, Seq<int>)> {
    grouped(all_filings(filed_lists(posts, kind)))
}

fn names_for(post: &Post, kind: ListingKind) -> (r: Vec<String>)
    ensures
        texts(r@) == filed_under(*post, kind),
{
    match kind {
        ListingKind::Category => clone_strings(&post.categories),
        ListingKind::Tag => clone_strings(&post.tags),
        ListingKind::Archive => {
            let mut names: Vec<String> = Vec::new();
            names.push(format_month(&post.date));
            assert(texts(names@) =~= seq![month_key(post.date)]);
            names
        },
    }
}

/// Groups the posts for one kind of listing.
pub fn group_posts(posts: &Vec<Post>, kind: ListingKind) -> (groups: Vec<Group>)
    ensures
        groups_view(groups@) == listing_groups(posts@, kind),
        members_below(groups_view(groups@), posts@.len() as int),
{
    let ghost lists = filed_lists(posts@, kind);
    let mut groups: Vec<Group> = Vec::new();
    let mut i: usize = 0;
    assert(groups_view(groups@) =~= grouped(all_filings(lists.take(0))));
    while i < posts.len()
        invariant
            i <= posts.len(),
            lists == filed_lists(posts@, kind),
            groups_view(groups@) == grouped(all_filings(lists.take(i as int))),
            members_below(groups_view(groups@), i as int),
        decreases posts.len() - i,
    {
        let names = names_for(&posts[i], kind);
        proof {
            assert(lists.take(i + 1).drop_last() == lists.take(i as int));
            assert(lists.take(i + 1).last() == filed_under(posts@[i as int], kind));
            lemma_filings_below(
                grouped(all_filings(lists.take(i as int))),
                all_filings(lists.take(i as int)),
                filings_of(texts(names@), i as int),
                i + 1,
            );
        }
        file_post(&mut groups, &names, i, Ghost(all_filings(lists.take(i as int))));
        i = i + 1;
    }
    assert(lists.take(i as int) == lists);
    groups
}

/// Filing positions below the bound, one after the other, keeps all members
/// below the bound.
proof fn lemma_filings_below(
    groups: Seq<(Seq<char>, Seq<int>)>,
    seen: Seq<(Seq<char>, int)>,
    more: Seq<(Seq<char>, int)>,
    bound: int,
)
    requires
        groups == grouped(seen),
        members_below(groups, bound),
        forall|k: int| 0 <= k < more.len() ==> 0 <= (#[trigger] more[k]).1 < bound,
    ensures
        members_below(grouped(seen + more), bound),
    decreases more.len(),
{
    if more.len() == 0 {
        assert(seen + more =~= seen);
    } else {
        let front = more.drop_last();
        assert forall|k: int| 0 <= k < front.len() implies 0 <= (#[trigger] front[k]).1
            < bound by {
            assert(front[k] == more[k]);
        }
        lemma_filings_below(groups, seen, front, bound);
        assert((seen + more).drop_last() =~= seen + front);
        assert((seen + more).last() == more.last());
        lemma_file_below(grouped(seen + front), more.last().0, more.last().1, bound);
    }
}

/// Where the listing of a group is written, below the output directory:
/// `categories/<name>/index.html`, `tags/<name>/index.html`, or
/// `archives/<year>/<month>.html` with the month in two digits.
pub open spec fn listing_path(
    output_dir: Seq<char>,
    kind: ListingKind,
    name: Seq<char>,
    date: Timestamp,
) -> Seq<char> {
    match kind {
        ListingKind::Category => path_join(
            path_join(path_join(output_dir, "categories"@), name),
            "index.html"@,
        ),
        ListingKind::Tag => path_join(
            path_join(path_join(output_dir, "tags"@), name),
            "index.html"@,
        ),
        ListingKind::Archive => path_join(
            path_join(path_join(output_dir, "archives"@), signed_decimal(date.year as int)),
            two_digits(date.month as nat) + ".html"@,
        ),
    }
}

/// Whether `file` is the listing of `group`: it stands at the path of the
/// group and holds the page that lists the members of the group.
pub open spec fn is_listing_of(
    file: OutputFile,
    output_dir: Seq<char>,
    config: Config,
    kind: ListingKind,
    group: (Seq<char>, Seq<int>),
    posts: Seq<Post>,
    year: int,
) -> bool {
    &&& group.1.len() > 0 ==> file.path@ == listing_path(
        output_dir,
        kind,
        group.0,
        posts[group.1[0]].date,
    )
    &&& file.content@ == listing_page(config, kind, group.0, posts, group.1, year)
}

/// The generator of a site: where it writes, how the site is configured, and
/// the plugin host it consults.
pub struct HtmlGenerator<'a, P: Plugin + ?Sized> {
    pub output_dir: String,
    pub config: Config,
    pub plugin_manager: Option<&'a PluginManager<P>>,
}

impl<'a, P: Plugin + ?Sized> HtmlGenerator<'a, P> {
    /// A generator that consults no plugin.
    pub fn new(output_dir: String, config: Config, base_dir: String) -> (r: Self)
        ensures
            r.output_dir == output_dir,
            r.config == config,
            r.plugin_manager is None,
    {
        HtmlGenerator { output_dir, config, plugin_manager: None }
    }

    /// A generator that consults the plugins of `plugin_manager`.
    pub fn new_with_plugin_manager(
        output_dir: String,
        config: Config,
        plugin_manager: &'a PluginManager<P>,
    ) -> (r: Self)
        ensures
            r.output_dir == output_dir,
            r.config == config,
            r.plugin_manager == Some(plugin_manager),
    {
        HtmlGenerator { output_dir, config, plugin_manager: Some(plugin_manager) }
    }

    /// The listings of one kind: one page for each category, each tag, or
    /// each month that has posts. `year` is the year of the copyright line.
    pub fn generate_listings(&self, posts: &Vec<Post>, kind: ListingKind, year: i32) -> (files:
        Vec<OutputFile>)
        ensures
            files@.len() == listing_groups(posts@, kind).len(),
            forall|k: int|
                0 <= k < files@.len() ==> is_listing_of(
                    #[trigger] files@[k],
                    self.output_dir@,
                    self.config,
                    kind,
                    listing_groups(posts@, kind)[k],
                    posts@,
                    year as int,
                ),
    {
        let groups = group_posts(posts, kind);
        let ghost model = listing_groups(posts@, kind);
        let mut files: Vec<OutputFile> = Vec::new();
        let mut g: usize = 0;
        while g < groups.len()
            invariant
                g <= groups.len(),
                files@.len() == g,
                model == listing_groups(posts@, kind),
                groups_view(groups@) == model,
                members_below(model, posts@.len() as int),
                forall|k: int|
                    0 <= k < g ==> is_listing_of(
                        #[trigger] files@[k],
                        self.output_dir@,
                        self.config,
                        kind,
                        model[k],
                        posts@,
                        year as int,
                    ),
            decreases groups.len() - g,
        {
            let group = &groups[g];
            proof {
                assert(model[g as int] == group.view());
                assert forall|m: int| 0 <= m < group.members@.len() implies (
                #[trigger] group.members@[m]) < posts@.len() by {
                    assert(model[g as int].1[m] == group.members@[m] as int);
                }
            }
            let content = write_listing_page(
                &self.config,
                kind,
                group.name.as_str(),
                posts,
                &group.members,
                year,
            );
            let path = if group.members.len() > 0 {
                let first = &posts[group.members[0]];
                assert(model[g as int].1[0] == group.members@[0] as int);
                self.listing_file(kind, group.name.as_str(), &first.date)
            } else {
                String::new()
            };
            files.push(OutputFile { path, content });
            g = g + 1;
        }
        files
    }

    /// Where the listing of a group is written.
    pub fn listing_file(&self, kind: ListingKind, name: &str, date: &Timestamp) -> (r: String)
        ensures
            r@ == listing_path(self.output_dir@, kind, name@, *date),
    {
        match kind {
            ListingKind::Category => {
                let root = join_path(self.output_dir.as_str(), "categories");
                let dir = join_path(root.as_str(), name);
                join_path(dir.as_str(), "index.html")
            },
            ListingKind::Tag => {
                let root = join_path(self.output_dir.as_str(), "tags");
                let dir = join_path(root.as_str(), name);
                join_path(dir.as_str(), "index.html")
            },
            ListingKind::Archive => {
                let root = join_path(self.output_dir.as_str(), "archives");
                let year = signed_decimal_string(date.year as i64);
                let dir = join_path(root.as_str(), year.as_str());
                let mut file = two_digit_string(date.month as u64);
                file.append(".html");
                join_path(dir.as_str(), file.as_str())
            },
        }
    }

    /// The category pages.
    pub fn generate_categories(&self, posts: &Vec<Post>, year: i32) -> (r: Result<
        Vec<OutputFile>,
        PluginError,
    >)
        ensures
            r matches Ok(files) && files@.len() == listing_groups(
                posts@,
                ListingKind::Category,
            ).len() && forall|k: int|
                0 <= k < files@.len() ==> is_listing_of(
                    #[trigger] files@[k],
                    self.output_dir@,
                    self.config,
                    ListingKind::Category,
                    listing_groups(posts@, ListingKind::Category)[k],
                    posts@,
                    year as int,
                ),
    {
        Ok(self.generate_listings(posts, ListingKind::Category, year))
    }

    /// The tag pages.
    pub fn generate_tags(&self, posts: &Vec<Post>, year: i32) -> (r: Result<
        Vec<OutputFile>,
        PluginError,
    >)
        ensures
            r matches Ok(files) && files@.len() == listing_groups(posts@, ListingKind::Tag).len()
                && forall|k: int|
                0 <= k < files@.len() ==> is_listing_of(
                    #[trigger] files@[k],
                    self.output_dir@,
                    self.config,
                    ListingKind::Tag,
                    listing_groups(posts@, ListingKind::Tag)[k],
                    posts@,
                    year as int,
                ),
    {
        Ok(self.generate_listings(posts, ListingKind::Tag, year))
    }

    /// The monthly archive pages.
    pub fn generate_archives(&self, posts: &Vec<Post>, year: i32) -> (r: Result<
        Vec<OutputFile>,
        PluginError,
    >)
        ensures
            r matches Ok(files) && files@.len() == listing_groups(
                posts@,
                ListingKind::Archive,
            ).len() && forall|k: int|
                0 <= k < files@.len() ==> is_listing_of(
                    #[trigger] files@[k],
                    self.output_dir@,
                    self.config,
                    ListingKind::Archive,
                    listing_groups(posts@, ListingKind::Archive)[k],
                    posts@,
                    year as int,
                ),
    {
        Ok(self.generate_listings(posts, ListingKind::Archive, year))
    }
}

/// Whether a character is an ASCII letter or digit.
pub open spec fn ascii_alphanumeric(c: char) -> bool {
    let code = c as u32;
    (0x30 <= code <= 0x39) || (0x41 <= code <= 0x5A) || (0x61 <= code <= 0x7A)
}

/// Whether a character is an ASCII punctuation mark.
pub open spec fn ascii_punctuation(c: char) -> bool {
    let code = c as u32;
    (0x21 <= code <= 0x2F) || (0x3A <= code <= 0x40) || (0x5B <= code <= 0x60) || (0x7B <= code
        <= 0x7E)
}

/// The count of words after a text, and whether the text ends inside an
/// ASCII word. A run of ASCII letters and digits is one word; white space
/// and ASCII punctuation end it; every other letter is a word of its own;
/// anything else is passed over.
pub open spec fn scanned(s: Seq<char>) -> (nat, bool)
    decreases s.len(),
{
    if s.len() == 0 {
        (0, false)
    } else {
        let (count, in_word) = scanned(s.drop_last());
        let c = s.last();
        if ascii_alphanumeric(c) {
            if in_word {
                (count, true)
            } else {
                (count + 1, true)
            }
        } else if crate::text::whitespace(c) || ascii_punctuation(c) {
            (count, false)
        } else if crate::text::alphabetic(c) {
            (count + 1, in_word)
        } else {
            (count, in_word)
        }
    }
}

/// Counts the words of a text that mixes Latin and other scripts.
pub fn count_words(content: &str) -> (n: usize)
    ensures
        n == scanned(content@).0,
{
    let v = crate::text::chars_of(content);
    let mut count: usize = 0;
    let mut is_word = false;
    let mut i: usize = 0;
    while i < v.len()
        invariant
            i <= v@.len(),
            count <= i,
            (count as nat, is_word) == scanned(v@.take(i as int)),
        decreases v.len() - i,
    {
        proof {
            assert(v@.take(i + 1).drop_last() == v@.take(i as int));
            assert(v@.take(i + 1).last() == v@[i as int]);
        }
        let c = v[i];
        let code = c as u32;
        let alphanumeric = (0x30 <= code && code <= 0x39) || (0x41 <= code && code <= 0x5A) || (
        0x61 <= code && code <= 0x7A);
        let punctuation = (0x21 <= code && code <= 0x2F) || (0x3A <= code && code <= 0x40) || (
        0x5B <= code && code <= 0x60) || (0x7B <= code && code <= 0x7E);
        if alphanumeric {
            if !is_word {
                is_word = true;
                count = count + 1;
            }
        } else if crate::text::is_whitespace(c) || punctuation {
            is_word = false;
        } else if crate::text::is_alphabetic(c) {
            count = count + 1;
        }
        i = i + 1;
    }
    assert(v@.take(i as int) == v@);
    count
}

} // verus!
