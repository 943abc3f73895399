//! The overview pages: all categories, all tags, all months.

use vstd::prelude::*;
use vstd::string::*;
use crate::generation::generator::{group_posts, listing_groups, HtmlGenerator, OutputFile};
use crate::generation::groups::{groups_view, members_below, Group};
use crate::generation::html::{html_footer, html_header, write_html_footer, write_html_header, ListingKind};
use crate::generation::order::{
    all_positions, arrange, arranged, codes, lemma_arranged, lemma_arranged_alike, lex_lt,
    positions, SortKey,
};
use crate::models::config::Config;
use crate::models::types::{Post, Timestamp};
use crate::plugins::error::PluginError;
use crate::plugins::Plugin;
use crate::text::{
    chars_of, decimal, decimal_string, join_path, path_join, same_text, signed_decimal,
    signed_decimal_string, texts, two_digit_string, two_digits,
};
use crate::utils::time::{date_text, format_date};

verus! {

/// The texts `part(0)`, ..., `part(n - 1)`, one after the other.
pub open spec fn concat_map(n: nat, part: spec_fn(int) -> Seq<char>) -> Seq<char>
    decreases n,
{
    if n == 0 {
        Seq::empty()
    } else {
        concat_map((n - 1) as nat, part) + part(n - 1)
    }
}

/// The members of all groups, group after group.
pub open spec fn flat_members(groups: Seq<(Seq<char>, Seq<int>)>) -> Seq<int>
    decreases groups.len(),
{
    if groups.len() == 0 {
        Seq::empty()
    } else {
        flat_members(groups.drop_last()) + groups.last().1
    }
}

/// The order of the posts at the positions `list` by their paths.
pub open spec fn path_order(posts: Seq<Post>, list: Seq<int>) -> spec_fn(int, int) -> bool {
    |i: int, j: int| lex_lt(codes(posts[list[i]].path@), codes(posts[list[j]].path@))
}

/// The order of the posts at the positions `list` by their dates, newest
/// first.
pub open spec fn date_order(posts: Seq<Post>, list: Seq<int>) -> spec_fn(int, int) -> bool {
    |i: int, j: int| posts[list[j]].date.before(posts[list[i]].date)
}

/// The elements of `list` in the given order of its positions.
pub open spec fn reordered(list: Seq<int>, order: Seq<usize>) -> Seq<int> {
    order.map_values(|k: usize| list[k as int])
}

/// `list` without repeats: of neighbours with the same path only the first
/// stays.
pub open spec fn without_repeats(posts: Seq<Post>, list: Seq<int>) -> Seq<int>
    decreases list.len(),
{
    if list.len() == 0 {
        Seq::empty()
    } else {
        let kept = without_repeats(posts, list.drop_last());
        if kept.len() > 0 && posts[kept.last()].path@ == posts[list.last()].path@ {
            kept
        } else {
            kept.push(list.last())
        }
    }
}

/// The posts that an overview lists below its groups: every post of a group,
/// each path once, from newest to oldest, posts of the same date by path.
pub open spec fn overview_posts(posts: Seq<Post>, groups: Seq<(Seq<char>, Seq<int>)>) -> Seq<int> {
    let flat = flat_members(groups);
    let by_path = reordered(flat, arranged(path_order(posts, flat), all_positions(flat.len())));
    let unique = without_repeats(posts, by_path);
    reordered(unique, arranged(date_order(posts, unique), all_positions(unique.len())))
}

/// The positions as mathematical integers.
pub open spec fn as_ints(list: Seq<usize>) -> Seq<int> {
    list.map_values(|i: usize| i as int)
}

fn collect_members(groups: &Vec<Group>, Ghost(bound): Ghost<int>) -> (flat: Vec<usize>)
    requires
        members_below(groups_view(groups@), bound),
    ensures
        as_ints(flat@) == flat_members(groups_view(groups@)),
        forall|k: int| 0 <= k < flat@.len() ==> (#[trigger] flat@[k]) < bound,
{
    let ghost model = groups_view(groups@);
    let mut flat: Vec<usize> = Vec::new();
    let mut g: usize = 0;
    assert(as_ints(flat@) =~= flat_members(model.take(0)));
    while g < groups.len()
        invariant
            g <= groups.len(),
            model == groups_view(groups@),
            members_below(model, bound),
            as_ints(flat@) == flat_members(model.take(g as int)),
            forall|k: int| 0 <= k < flat@.len() ==> (#[trigger] flat@[k]) < bound,
        decreases groups.len() - g,
    {
        let members = &groups[g].members;
        let ghost start = flat@;
        proof {
            assert(model.take(g + 1).drop_last() == model.take(g as int));
            assert(model.take(g + 1).last() == model[g as int]);
            assert(model[g as int] == groups@[g as int].view());
        }
        let mut m: usize = 0;
        while m < members.len()
            invariant
                m <= members.len(),
                g < groups.len(),
                members == &groups@[g as int].members,
                model == groups_view(groups@),
                members_below(model, bound),
                flat@ == start + members@.take(m as int),
                forall|k: int| 0 <= k < flat@.len() ==> (#[trigger] flat@[k]) < bound,
            decreases members.len() - m,
        {
            assert(model[g as int].1[m as int] == members@[m as int] as int);
            flat.push(members[m]);
            assert(flat@ =~= start + members@.take(m + 1));
            m = m + 1;
        }
        assert(members@.take(m as int) == members@);
        assert(as_ints(flat@) =~= as_ints(start) + as_ints(members@));
        g = g + 1;
    }
    assert(model.take(g as int) == model);
    flat
}

fn pick(list: &Vec<usize>, order: &Vec<usize>) -> (out: Vec<usize>)
    requires
        forall|k: int| 0 <= k < order@.len() ==> (#[trigger] order@[k]) < list@.len(),
    ensures
        as_ints(out@) == reordered(as_ints(list@), order@),
        out@.len() == order@.len(),
        forall|k: int| 0 <= k < out@.len() ==> list@.contains(#[trigger] out@[k]),
{
    let mut out: Vec<usize> = Vec::new();
    let mut k: usize = 0;
    while k < order.len()
        invariant
            k <= order.len(),
            out@.len() == k,
            forall|j: int| 0 <= j < order@.len() ==> (#[trigger] order@[j]) < list@.len(),
            forall|j: int| 0 <= j < k ==> (#[trigger] out@[j]) == list@[order@[j] as int],
        decreases order.len() - k,
    {
        out.push(list[order[k]]);
        k = k + 1;
    }
    assert(as_ints(out@) =~= reordered(as_ints(list@), order@));
    assert forall|j: int| 0 <= j < out@.len() implies list@.contains(#[trigger] out@[j]) by {
        assert(list@[order@[j] as int] == out@[j]);
    }
    out
}

fn drop_repeats(posts: &Vec<Post>, list: &Vec<usize>) -> (kept: Vec<usize>)
    requires
        forall|k: int| 0 <= k < list@.len() ==> (#[trigger] list@[k]) < posts@.len(),
    ensures
        as_ints(kept@) == without_repeats(posts@, as_ints(list@)),
        forall|k: int| 0 <= k < kept@.len() ==> (#[trigger] kept@[k]) < posts@.len(),
{
    let mut kept: Vec<usize> = Vec::new();
    let mut i: usize = 0;
    assert(as_ints(kept@) =~= without_repeats(posts@, as_ints(list@).take(0)));
    while i < list.len()
        invariant
            i <= list.len(),
            forall|k: int| 0 <= k < list@.len() ==> (#[trigger] list@[k]) < posts@.len(),
            forall|k: int| 0 <= k < kept@.len() ==> (#[trigger] kept@[k]) < posts@.len(),
            as_ints(kept@) == without_repeats(posts@, as_ints(list@).take(i as int)),
        decreases list.len() - i,
    {
        proof {
            let all = as_ints(list@);
            assert(all.take(i + 1).drop_last() == all.take(i as int));
            assert(all.take(i + 1).last() == list@[i as int] as int);
            if kept@.len() > 0 {
                assert(as_ints(kept@).last() == kept@.last() as int);
            }
        }
        let repeat = kept.len() > 0 && same_text(
            posts[kept[kept.len() - 1]].path.as_str(),
            posts[list[i]].path.as_str(),
        );
        if !repeat {
            let ghost before = as_ints(kept@);
            kept.push(list[i]);
            assert(as_ints(kept@) =~= before.push(list@[i as int] as int));
        }
        i = i + 1;
    }
    assert(as_ints(list@).take(i as int) == as_ints(list@));
    kept
}

/// The posts that an overview lists below its groups.
pub fn listed_posts(posts: &Vec<Post>, groups: &Vec<Group>) -> (shown: Vec<usize>)
    requires
        members_below(groups_view(groups@), posts@.len() as int),
    ensures
        as_ints(shown@) == overview_posts(posts@, groups_view(groups@)),
        forall|k: int| 0 <= k < shown@.len() ==> (#[trigger] shown@[k]) < posts@.len(),
{
    let flat = collect_members(groups, Ghost(posts@.len() as int));
    let mut paths: Vec<Vec<char>> = Vec::new();
    let mut i: usize = 0;
    while i < flat.len()
        invariant
            i <= flat.len(),
            paths@.len() == i,
            forall|k: int| 0 <= k < flat@.len() ==> (#[trigger] flat@[k]) < posts@.len(),
            forall|k: int| 0 <= k < i ==> (#[trigger] paths@[k])@ == posts@[flat@[k] as int].path@,
        decreases flat.len() - i,
    {
        paths.push(chars_of(posts[flat[i]].path.as_str()));
        i = i + 1;
    }
    let all = positions(flat.len());
    let key = SortKey::Texts(&paths);
    let order = arrange(&key, &all);
    proof {
        let list = as_ints(flat@);
        assert forall|a: int, b: int|
            0 <= a < all@.len() && 0 <= b < all@.len() implies key.relation()(
            all@[a] as int,
            all@[b] as int,
        ) == path_order(posts@, list)(all@[a] as int, all@[b] as int) by {
            assert(paths@[a]@ == posts@[flat@[a] as int].path@);
            assert(paths@[b]@ == posts@[flat@[b] as int].path@);
        }
        lemma_arranged_alike(key.relation(), path_order(posts@, list), all@);
    }
    let by_path = pick(&flat, &order);
    assert forall|k: int| 0 <= k < by_path@.len() implies (#[trigger] by_path@[k]) < posts@.len() by {
        assert(flat@.contains(by_path@[k]));
    }
    let unique = drop_repeats(posts, &by_path);
    let mut dates: Vec<Timestamp> = Vec::new();
    let mut j: usize = 0;
    while j < unique.len()
        invariant
            j <= unique.len(),
            dates@.len() == j,
            forall|k: int| 0 <= k < unique@.len() ==> (#[trigger] unique@[k]) < posts@.len(),
            forall|k: int| 0 <= k < j ==> (#[trigger] dates@[k]) == posts@[unique@[k] as int].date,
        decreases unique.len() - j,
    {
        dates.push(posts[unique[j]].date);
        j = j + 1;
    }
    let every = positions(unique.len());
    let date_key = SortKey::Newest(&dates);
    let date_sorted = arrange(&date_key, &every);
    proof {
        let list = as_ints(unique@);
        assert forall|a: int, b: int|
            0 <= a < every@.len() && 0 <= b < every@.len() implies date_key.relation()(
            every@[a] as int,
            every@[b] as int,
        ) == date_order(posts@, list)(every@[a] as int, every@[b] as int) by {
            assert(dates@[a] == posts@[unique@[a] as int].date);
            assert(dates@[b] == posts@[unique@[b] as int].date);
        }
        lemma_arranged_alike(date_key.relation(), date_order(posts@, list), every@);
    }
    let shown = pick(&unique, &date_sorted);
    assert forall|k: int| 0 <= k < shown@.len() implies (#[trigger] shown@[k]) < posts@.len() by {
        assert(unique@.contains(shown@[k]));
    }
    shown
}

/// The links to the given names: each name linked below `prefix`, with a
/// comma between neighbours.
pub open spec fn name_links(names: Seq<Seq<char>>, prefix: Seq<char>) -> Seq<char>
    decreases names.len(),
{
    if names.len() == 0 {
        Seq::empty()
    } else {
        name_links(names.drop_last(), prefix) + (if names.len() > 1 {
            ", "@
        } else {
            Seq::empty()
        }) + "<a href=\""@ + prefix + names.last() + "\">"@ + names.last() + "</a>"@
    }
}

/// The entry of one post in an overview: title, day, categories and tags.
pub open spec fn overview_item(post: Post) -> Seq<char> {
    "            <article class=\"post-item\">\n                <h3><a href=\"/"@ + post.path@
        + "\">"@ + post.title@
        + "</a></h3>\n                <div class=\"post-meta\">\n                    <time>"@
        + date_text(post.date) + "</time>\n"@ + (if post.categories@.len() > 0 {
        " | 分类: "@ + name_links(texts(post.categories@), "/categories/"@)
    } else {
        Seq::empty()
    }) + (if post.tags@.len() > 0 {
        " | 标签: "@ + name_links(texts(post.tags@), "/tags/"@)
    } else {
        Seq::empty()
    }) + "                </div>\n            </article>\n"@
}

fn write_name_links(names: &Vec<String>, prefix: &str) -> (r: String)
    ensures
        r@ == name_links(texts(names@), prefix@),
{
    let mut out = String::new();
    let mut i: usize = 0;
    while i < names.len()
        invariant
            i <= names.len(),
            out@ == name_links(texts(names@).take(i as int), prefix@),
        decreases names.len() - i,
    {
        proof {
            let all = texts(names@);
            assert(all.take(i + 1).drop_last() == all.take(i as int));
            assert(all.take(i + 1).last() == names@[i as int]@);
        }
        let ghost before = out@;
        let mut link = String::new();
        if i > 0 {
            link.append(", ");
        }
        link.append("<a href=\"");
        link.append(prefix);
        link.append(names[i].as_str());
        link.append("\">");
        link.append(names[i].as_str());
        link.append("</a>");
        out.append(link.as_str());
        assert(out@ =~= name_links(texts(names@).take(i + 1), prefix@));
        i = i + 1;
    }
    assert(texts(names@).take(i as int) == texts(names@));
    out
}

fn write_overview_item(post: &Post) -> (r: String)
    ensures
        r@ == overview_item(*post),
{
    let mut out = String::new();
    out.append("            <article class=\"post-item\">\n                <h3><a href=\"/");
    out.append(post.path.as_str());
    out.append("\">");
    out.append(post.title.as_str());
    out.append(
        "</a></h3>\n                <div class=\"post-meta\">\n                    <time>",
    );
    let day = format_date(&post.date);
    out.append(day.as_str());
    out.append("</time>\n");
    if post.categories.len() > 0 {
        out.append(" | 分类: ");
        let links = write_name_links(&post.categories, "/categories/");
        out.append(links.as_str());
    }
    if post.tags.len() > 0 {
        out.append(" | 标签: ");
        let links = write_name_links(&post.tags, "/tags/");
        out.append(links.as_str());
    }
    out.append("                </div>\n            </article>\n");
    assert(out@ =~= overview_item(*post));
    out
}

/// The entries of the posts at the positions `shown`, in order.
pub open spec fn overview_items(posts: Seq<Post>, shown: Seq<int>) -> Seq<char> {
    concat_map(shown.len(), |k: int| overview_item(posts[shown[k]]))
}

fn write_overview_items(posts: &Vec<Post>, shown: &Vec<usize>) -> (r: String)
    requires
        forall|k: int| 0 <= k < shown@.len() ==> (#[trigger] shown@[k]) < posts@.len(),
    ensures
        r@ == overview_items(posts@, as_ints(shown@)),
{
    let ghost part = |k: int| overview_item(posts@[as_ints(shown@)[k]]);
    let mut out = String::new();
    let mut i: usize = 0;
    while i < shown.len()
        invariant
            i <= shown.len(),
            part == |k: int| overview_item(posts@[as_ints(shown@)[k]]),
            forall|k: int| 0 <= k < shown@.len() ==> (#[trigger] shown@[k]) < posts@.len(),
            out@ == concat_map(i as nat, part),
        decreases shown.len() - i,
    {
        let item = write_overview_item(&posts[shown[i]]);
        assert(part(i as int) == item@);
        out.append(item.as_str());
        i = i + 1;
    }
    out
}

/// The order of groups by their names.
pub open spec fn name_order(groups: Seq<(Seq<char>, Seq<int>)>) -> spec_fn(int, int) -> bool {
    |i: int, j: int| lex_lt(codes(groups[i].0), codes(groups[j].0))
}

/// The positions of the groups in the order of their names.
pub open spec fn groups_by_name(groups: Seq<(Seq<char>, Seq<int>)>) -> Seq<usize> {
    arranged(name_order(groups), all_positions(groups.len()))
}

/// Puts the groups in the order of their names.
pub fn sort_groups_by_name(groups: &Vec<Group>) -> (order: Vec<usize>)
    ensures
        order@ == groups_by_name(groups_view(groups@)),
        order@.len() == groups@.len(),
        forall|k: int| 0 <= k < order@.len() ==> (#[trigger] order@[k]) < groups@.len(),
{
    let mut names: Vec<Vec<char>> = Vec::new();
    let mut i: usize = 0;
    while i < groups.len()
        invariant
            i <= groups.len(),
            names@.len() == i,
            forall|k: int| 0 <= k < i ==> (#[trigger] names@[k])@ == groups@[k].name@,
        decreases groups.len() - i,
    {
        names.push(chars_of(groups[i].name.as_str()));
        i = i + 1;
    }
    let all = positions(groups.len());
    let key = SortKey::Texts(&names);
    let order = arrange(&key, &all);
    proof {
        let model = groups_view(groups@);
        assert forall|a: int, b: int|
            0 <= a < all@.len() && 0 <= b < all@.len() implies key.relation()(
            all@[a] as int,
            all@[b] as int,
        ) == name_order(model)(all@[a] as int, all@[b] as int) by {
            assert(names@[a]@ == groups@[a].name@);
            assert(names@[b]@ == groups@[b].name@);
            assert(model[a] == groups@[a].view());
            assert(model[b] == groups@[b].view());
        }
        lemma_arranged_alike(key.relation(), name_order(model), all@);
    }
    order
}

/// The line of one category in the overview of categories.
pub open spec fn category_line(group: (Seq<char>, Seq<int>)) -> Seq<char> {
    "        <div class=\"category-item\">\n            <h2><a href=\"/categories/"@ + group.0
        + "\">"@ + group.0 + "</a></h2>\n            <span class=\"post-count\">"@ + decimal(
        group.1.len(),
    ) + " 篇文章</span>\n        </div>\n"@
}

/// The size of a tag in the tag cloud, in percent: 100, and 10 more for each
/// post up to 200.
pub open spec fn cloud_size(count: nat) -> nat {
    if count >= 10 {
        200
    } else {
        100 + 10 * count
    }
}

/// The line of one tag in the tag cloud.
pub open spec fn tag_line(group: (Seq<char>, Seq<int>)) -> Seq<char> {
    "            <a href=\"/tags/"@ + group.0 + "\" style=\"font-size: "@ + decimal(
        cloud_size(group.1.len()),
    ) + "%\">"@ + group.0 + " <span class=\"tag-count\">("@ + decimal(group.1.len())
        + ")</span></a>\n"@
}

/// The overview of all categories: the categories by name, each with the
/// number of its posts, and below them the posts that have a category.
pub open spec fn categories_index(config: Config, posts: Seq<Post>, year: int) -> Seq<char> {
    let groups = listing_groups(posts, ListingKind::Category);
    let order = groups_by_name(groups);
    html_header(config, "分类"@) + "    <div class=\"categories-list\">\n        <h1>分类</h1>\n"@
        + concat_map(order.len(), |k: int| category_line(groups[order[k] as int]))
        + "        <div class=\"all-posts\">\n            <h2>全部分类文章</h2>\n"@
        + overview_items(posts, overview_posts(posts, groups)) + "        </div>\n    </div>\n"@
        + html_footer(config, year)
}

/// The overview of all tags: the tag cloud by name, each tag sized by the
/// number of its posts, and below it the posts that have a tag.
pub open spec fn tags_index(config: Config, posts: Seq<Post>, year: int) -> Seq<char> {
    let groups = listing_groups(posts, ListingKind::Tag);
    let order = groups_by_name(groups);
    html_header(config, "标签"@)
        + "    <div class=\"tags-list\">\n        <h1>标签</h1>\n        <div class=\"tag-cloud\">\n"@
        + concat_map(order.len(), |k: int| tag_line(groups[order[k] as int]))
        + "        </div>\n        <div class=\"all-posts\">\n            <h2>全部标签文章</h2>\n"@
        + overview_items(posts, overview_posts(posts, groups)) + "        </div>\n    </div>\n"@
        + html_footer(config, year)
}

fn write_category_line(group: &Group) -> (r: String)
    ensures
        r@ == category_line(group.view()),
{
    let mut out = String::new();
    out.append("        <div class=\"category-item\">\n            <h2><a href=\"/categories/");
    out.append(group.name.as_str());
    out.append("\">");
    out.append(group.name.as_str());
    out.append("</a></h2>\n            <span class=\"post-count\">");
    let count = decimal_string(group.members.len() as u64);
    out.append(count.as_str());
    out.append(" 篇文章</span>\n        </div>\n");
    assert(group.view().1.len() == group.members@.len());
    assert(out@ =~= category_line(group.view()));
    out
}

fn write_tag_line(group: &Group) -> (r: String)
    ensures
        r@ == tag_line(group.view()),
{
    let count = group.members.len();
    let size: u64 = if count >= 10 {
        200
    } else {
        100 + 10 * (count as u64)
    };
    let mut out = String::new();
    out.append("            <a href=\"/tags/");
    out.append(group.name.as_str());
    out.append("\" style=\"font-size: ");
    let size_text = decimal_string(size);
    out.append(size_text.as_str());
    out.append("%\">");
    out.append(group.name.as_str());
    out.append(" <span class=\"tag-count\">(");
    let count_text = decimal_string(count as u64);
    out.append(count_text.as_str());
    out.append(")</span></a>\n");
    assert(group.view().1.len() == group.members@.len());
    assert(out@ =~= tag_line(group.view()));
    out
}

impl<'a, P: Plugin + ?Sized> HtmlGenerator<'a, P> {
    /// The overview of all categories, at `categories/index.html`.
    pub fn generate_categories_index(&self, posts: &Vec<Post>, year: i32) -> (r: Result<
        OutputFile,
        PluginError,
    >)
        ensures
            r matches Ok(file) && file.path@ == path_join(
                path_join(self.output_dir@, "categories"@),
                "index.html"@,
            ) && file.content@ == categories_index(self.config, posts@, year as int),
    {
        let groups = group_posts(posts, ListingKind::Category);
        let order = sort_groups_by_name(&groups);
        let ghost model = listing_groups(posts@, ListingKind::Category);
        let ghost part = |k: int| category_line(model[groups_by_name(model)[k] as int]);
        let mut out = String::new();
        write_html_header(&self.config, &mut out, "分类");
        out.append("    <div class=\"categories-list\">\n        <h1>分类</h1>\n");
        let ghost head = out@;
        let mut i: usize = 0;
        while i < order.len()
            invariant
                i <= order.len(),
                model == groups_view(groups@),
                order@ == groups_by_name(model),
                forall|k: int| 0 <= k < order@.len() ==> (#[trigger] order@[k]) < groups@.len(),
                part == |k: int| category_line(model[groups_by_name(model)[k] as int]),
                out@ == head + concat_map(i as nat, part),
            decreases order.len() - i,
        {
            let line = write_category_line(&groups[order[i]]);
            assert(model[order@[i as int] as int] == groups@[order@[i as int] as int].view());
            assert(part(i as int) == line@);
            out.append(line.as_str());
            assert(out@ =~= head + concat_map((i + 1) as nat, part));
            i = i + 1;
        }
        out.append("        <div class=\"all-posts\">\n            <h2>全部分类文章</h2>\n");
        let shown = listed_posts(posts, &groups);
        let items = write_overview_items(posts, &shown);
        out.append(items.as_str());
        out.append("        </div>\n    </div>\n");
        write_html_footer(&self.config, &mut out, year);
        assert(out@ =~= categories_index(self.config, posts@, year as int));
        let dir = join_path(self.output_dir.as_str(), "categories");
        Ok(OutputFile { path: join_path(dir.as_str(), "index.html"), content: out })
    }

    /// The overview of all tags, at `tags/index.html`.
    pub fn generate_tags_index(&self, posts: &Vec<Post>, year: i32) -> (r: Result<
        OutputFile,
        PluginError,
    >)
        ensures
            r matches Ok(file) && file.path@ == path_join(
                path_join(self.output_dir@, "tags"@),
                "index.html"@,
            ) && file.content@ == tags_index(self.config, posts@, year as int),
    {
        let groups = group_posts(posts, ListingKind::Tag);
        let order = sort_groups_by_name(&groups);
        let ghost model = listing_groups(posts@, ListingKind::Tag);
        let ghost part = |k: int| tag_line(model[groups_by_name(model)[k] as int]);
        let mut out = String::new();
        write_html_header(&self.config, &mut out, "标签");
        out.append(
            "    <div class=\"tags-list\">\n        <h1>标签</h1>\n        <div class=\"tag-cloud\">\n",
        );
        let ghost head = out@;
        let mut i: usize = 0;
        while i < order.len()
            invariant
                i <= order.len(),
                model == groups_view(groups@),
                order@ == groups_by_name(model),
                forall|k: int| 0 <= k < order@.len() ==> (#[trigger] order@[k]) < groups@.len(),
                part == |k: int| tag_line(model[groups_by_name(model)[k] as int]),
                out@ == head + concat_map(i as nat, part),
            decreases order.len() - i,
        {
            let line = write_tag_line(&groups[order[i]]);
            assert(model[order@[i as int] as int] == groups@[order@[i as int] as int].view());
            assert(part(i as int) == line@);
            out.append(line.as_str());
            assert(out@ =~= head + concat_map((i + 1) as nat, part));
            i = i + 1;
        }
        out.append(
            "        </div>\n        <div class=\"all-posts\">\n            <h2>全部标签文章</h2>\n",
        );
        let shown = listed_posts(posts, &groups);
        let items = write_overview_items(posts, &shown);
        out.append(items.as_str());
        out.append("        </div>\n    </div>\n");
        write_html_footer(&self.config, &mut out, year);
        assert(out@ =~= tags_index(self.config, posts@, year as int));
        let dir = join_path(self.output_dir.as_str(), "tags");
        Ok(OutputFile { path: join_path(dir.as_str(), "index.html"), content: out })
    }
}

/// The year and month of each group of the archive, taken from its first
/// post.
pub open spec fn group_months(posts: Seq<Post>, groups: Seq<(Seq<char>, Seq<int>)>) -> Seq<
    (int, int),
> {
    Seq::new(
        groups.len(),
        |g: int| (posts[groups[g].1[0]].date.year as int, posts[groups[g].1[0]].date.month as int),
    )
}

/// The order of months, latest first.
pub open spec fn month_order(months: Seq<(int, int)>) -> spec_fn(int, int) -> bool {
    |i: int, j: int|
        months[j].0 < months[i].0 || (months[j].0 == months[i].0 && months[j].1 < months[i].1)
}

/// The line of one month in the overview of the archive.
pub open spec fn month_line(year: int, month: int, count: nat) -> Seq<char> {
    "            <div class=\"month-group\">\n                <h3><a href=\"/archives/"@
        + signed_decimal(year) + "/"@ + two_digits(month as nat) + ".html\">"@ + signed_decimal(
        year,
    ) + "-"@ + two_digits(month as nat) + "</a> ("@ + decimal(count)
        + " posts)</h3>\n            </div>\n"@
}

/// What opens the block of a year in the overview of the archive.
pub open spec fn year_opening(year: int) -> Seq<char> {
    "        <div class=\"year-group\">\n            <h2>"@ + signed_decimal(year) + "</h2>\n"@
}

/// One entry of the overview of the archive: the line of the month at
/// position `k`, preceded by the opening of its year where the year changes,
/// and before that by the closing of the year before.
pub open spec fn archive_entry(
    months: Seq<(int, int)>,
    counts: Seq<nat>,
    order: Seq<usize>,
    k: int,
) -> Seq<char> {
    let here = months[order[k] as int];
    (if k == 0 {
        year_opening(here.0)
    } else if months[order[k - 1] as int].0 != here.0 {
        "        </div>\n"@ + year_opening(here.0)
    } else {
        Seq::empty()
    }) + month_line(here.0, here.1, counts[order[k] as int])
}

/// The overview of the archive: the months from latest to earliest, year by
/// year, each with the number of its posts.
pub open spec fn archives_index(config: Config, posts: Seq<Post>, year: int) -> Seq<char> {
    let groups = listing_groups(posts, ListingKind::Archive);
    let months = group_months(posts, groups);
    let counts = Seq::new(groups.len(), |g: int| groups[g].1.len());
    let order = arranged(month_order(months), all_positions(groups.len()));
    html_header(config, "Archives"@) + "    <div class=\"archives-list\">\n        <h1>Archives</h1>\n"@
        + concat_map(order.len(), |k: int| archive_entry(months, counts, order, k)) + (if order.len()
        > 0 {
        "        </div>\n"@
    } else {
        Seq::empty()
    }) + "    </div>\n"@ + html_footer(config, year)
}

fn write_year_opening(year: i32) -> (r: String)
    ensures
        r@ == year_opening(year as int),
{
    let mut out = String::new();
    out.append("        <div class=\"year-group\">\n            <h2>");
    let digits = signed_decimal_string(year as i64);
    out.append(digits.as_str());
    out.append("</h2>\n");
    out
}

fn write_month_line(year: i32, month: u32, count: usize) -> (r: String)
    ensures
        r@ == month_line(year as int, month as int, count as nat),
{
    let mut out = String::new();
    out.append(
        "            <div class=\"month-group\">\n                <h3><a href=\"/archives/",
    );
    let year_text = signed_decimal_string(year as i64);
    let month_text = two_digit_string(month as u64);
    out.append(year_text.as_str());
    out.append("/");
    out.append(month_text.as_str());
    out.append(".html\">");
    out.append(year_text.as_str());
    out.append("-");
    out.append(month_text.as_str());
    out.append("</a> (");
    let count_text = decimal_string(count as u64);
    out.append(count_text.as_str());
    out.append(" posts)</h3>\n            </div>\n");
    assert(out@ =~= month_line(year as int, month as int, count as nat));
    out
}

impl<'a, P: Plugin + ?Sized> HtmlGenerator<'a, P> {
    /// The overview of the archive, at `archives/index.html`.
    pub fn generate_archives_index(&self, posts: &Vec<Post>, year: i32) -> (r: Result<
        OutputFile,
        PluginError,
    >)
        ensures
            r matches Ok(file) && file.path@ == path_join(
                path_join(self.output_dir@, "archives"@),
                "index.html"@,
            ) && file.content@ == archives_index(self.config, posts@, year as int),
    {
        let groups = group_posts(posts, ListingKind::Archive);
        let ghost model = listing_groups(posts@, ListingKind::Archive);
        let ghost months = group_months(posts@, model);
        let ghost counts = Seq::new(model.len(), |g: int| model[g].1.len());
        proof {
            crate::generation::groups::lemma_groups_inhabited(
                crate::generation::groups::all_filings(
                    crate::generation::generator::filed_lists(posts@, ListingKind::Archive),
                ),
            );
        }
        let mut keys: Vec<(i32, u32)> = Vec::new();
        let mut g: usize = 0;
        while g < groups.len()
            invariant
                g <= groups.len(),
                keys@.len() == g,
                model == groups_view(groups@),
                months == group_months(posts@, model),
                members_below(model, posts@.len() as int),
                crate::generation::groups::all_inhabited(model),
                forall|k: int|
                    0 <= k < g ==> ((#[trigger] keys@[k]).0 as int, keys@[k].1 as int) == months[k],
            decreases groups.len() - g,
        {
            proof {
                assert(model[g as int] == groups@[g as int].view());
                assert(model[g as int].1.len() > 0);
                assert(model[g as int].1[0] == groups@[g as int].members@[0] as int);
            }
            let first = &posts[groups[g].members[0]];
            keys.push((first.date.year, first.date.month));
            g = g + 1;
        }
        let all = positions(groups.len());
        let key = SortKey::LatestMonth(&keys);
        let order = arrange(&key, &all);
        proof {
            assert forall|a: int, b: int|
                0 <= a < all@.len() && 0 <= b < all@.len() implies key.relation()(
                all@[a] as int,
                all@[b] as int,
            ) == month_order(months)(all@[a] as int, all@[b] as int) by {
                assert((keys@[a].0 as int, keys@[a].1 as int) == months[a]);
                assert((keys@[b].0 as int, keys@[b].1 as int) == months[b]);
            }
            lemma_arranged_alike(key.relation(), month_order(months), all@);
        }
        let ghost part = |k: int| archive_entry(months, counts, order@, k);
        let mut out = String::new();
        write_html_header(&self.config, &mut out, "Archives");
        out.append("    <div class=\"archives-list\">\n        <h1>Archives</h1>\n");
        let ghost head = out@;
        let mut i: usize = 0;
        while i < order.len()
            invariant
                i <= order.len(),
                keys@.len() == groups@.len(),
                model == groups_view(groups@),
                months == group_months(posts@, model),
                counts == Seq::new(model.len(), |g: int| model[g].1.len()),
                forall|k: int| 0 <= k < order@.len() ==> (#[trigger] order@[k]) < groups@.len(),
                forall|k: int|
                    0 <= k < keys@.len() ==> ((#[trigger] keys@[k]).0 as int, keys@[k].1 as int)
                        == months[k],
                part == |k: int| archive_entry(months, counts, order@, k),
                out@ == head + concat_map(i as nat, part),
            decreases order.len() - i,
        {
            let here = keys[order[i]];
            let mut entry = String::new();
            let opens = i == 0 || keys[order[i - 1]].0 != here.0;
            if opens {
                if i > 0 {
                    entry.append("        </div>\n");
                }
                let opening = write_year_opening(here.0);
                entry.append(opening.as_str());
            }
            let line = write_month_line(here.0, here.1, groups[order[i]].members.len());
            entry.append(line.as_str());
            proof {
                let at = order@[i as int] as int;
                assert(months[at] == (here.0 as int, here.1 as int));
                assert(model[at] == groups@[at].view());
                assert(counts[at] == groups@[at].members@.len());
                if i > 0 {
                    let before = order@[i - 1] as int;
                    assert(months[before].0 == keys@[before].0 as int);
                }
                assert(entry@ =~= part(i as int));
            }
            out.append(entry.as_str());
            assert(out@ =~= head + concat_map((i + 1) as nat, part));
            i = i + 1;
        }
        if order.len() > 0 {
            out.append("        </div>\n");
        }
        out.append("    </div>\n");
        write_html_footer(&self.config, &mut out, year);
        assert(out@ =~= archives_index(self.config, posts@, year as int));
        let dir = join_path(self.output_dir.as_str(), "archives");
        Ok(OutputFile { path: join_path(dir.as_str(), "index.html"), content: out })
    }
}

} // verus!
