//! The classification stage: categories and tags, derived from the front
//! matter of the posts.

use vstd::prelude::*;
use vstd::string::*;
use crate::models::types::{Category, Post, Tag};
use crate::models::value::{find, lookup, Value};
use crate::text::{concat, lowercase_text, same_text, texts, to_lowercase};
use crate::utils::{slug_text, slugify};

verus! {

/// The texts among `items`, in order; what is no text is passed over.
pub open spec fn strings_of(items: Seq<Value>) -> Seq<Seq<char>>
    decreases items.len(),
{
    if items.len() == 0 {
        Seq::empty()
    } else {
        let before = strings_of(items.drop_last());
        match items.last() {
            Value::String(s) => before.push(s@),
            _ => before,
        }
    }
}

/// The names that a front-matter value lists: the texts of a list, the text
/// itself where the value is a single text, and nothing for any other shape
/// or for an absent key.
pub open spec fn names_in(value: Option<Value>) -> Seq<Seq<char>> {
    match value {
        Some(Value::Sequence(items)) => strings_of(items@),
        Some(Value::String(s)) => seq![s@],
        _ => Seq::empty(),
    }
}

/// The names a post lists under `key` in its front matter.
pub open spec fn listed(post: Post, key: Seq<char>) -> Seq<Seq<char>> {
    names_in(lookup(post.front_matter@, key))
}

/// The names all posts list under `key`, post after post.
pub open spec fn all_listed(posts: Seq<Post>, key: Seq<char>) -> Seq<Seq<char>>
    decreases posts.len(),
{
    if posts.len() == 0 {
        Seq::empty()
    } else {
        all_listed(posts.drop_last(), key) + listed(posts.last(), key)
    }
}

/// How often `name` occurs in `names`.
pub open spec fn occurrences(names: Seq<Seq<char>>, name: Seq<char>) -> nat
    decreases names.len(),
{
    if names.len() == 0 {
        0
    } else {
        occurrences(names.drop_last(), name) + if names.last() == name {
            1nat
        } else {
            0nat
        }
    }
}

/// The tally after one more occurrence of `name`: its count goes up by one
/// where it is known, else it joins at the end with the count one.
pub open spec fn bump(tally: Seq<(Seq<char>, nat)>, name: Seq<char>) -> Seq<(Seq<char>, nat)>
    decreases tally.len(),
{
    if tally.len() == 0 {
        seq![(name, 1nat)]
    } else if tally[0].0 == name {
        seq![(name, tally[0].1 + 1)] + tally.skip(1)
    } else {
        seq![tally[0]] + bump(tally.skip(1), name)
    }
}

/// Each distinct name of `names` with the number of its occurrences, in the
/// order in which the names occur first.
pub open spec fn tally(names: Seq<Seq<char>>) -> Seq<(Seq<char>, nat)>
    decreases names.len(),
{
    if names.len() == 0 {
        Seq::empty()
    } else {
        bump(tally(names.drop_last()), names.last())
    }
}

/// Reads the names listed by a front-matter value.
pub fn names_of(value: Option<&Value>) -> (r: Vec<String>)
    ensures
        texts(r@) == names_in(
            match value {
                Some(v) => Some(*v),
                None => None,
            },
        ),
{
    let mut out: Vec<String> = Vec::new();
    match value {
        Some(Value::Sequence(items)) => {
            let mut i: usize = 0;
            while i < items.len()
                invariant
                    i <= items.len(),
                    texts(out@) == strings_of(items@.take(i as int)),
                decreases items.len() - i,
            {
                proof {
                    assert(items@.take(i + 1).drop_last() == items@.take(i as int));
                    assert(items@.take(i + 1).last() == items@[i as int]);
                }
                match &items[i] {
                    Value::String(s) => {
                        let name = s.clone();
                        out.push(name);
                        assert(texts(out@) =~= strings_of(items@.take(i as int)).push(s@));
                    },
                    _ => {},
                }
                i = i + 1;
            }
            assert(items@.take(i as int) == items@);
        },
        Some(Value::String(s)) => {
            out.push(s.clone());
            assert(texts(out@) =~= seq![s@]);
        },
        _ => {
            assert(texts(out@) =~= Seq::<Seq<char>>::empty());
        },
    }
    out
}

/// The texts and counts of a tally kept in a vector.
pub open spec fn tally_view(counts: Seq<(String, usize)>) -> Seq<(Seq<char>, nat)> {
    counts.map_values(|e: (String, usize)| (e.0@, e.1 as nat))
}

/// Bumping leaves no count above the number of occurrences seen so far.
proof fn lemma_bump_bound(tally: Seq<(Seq<char>, nat)>, name: Seq<char>, bound: nat)
    requires
        forall|k: int| 0 <= k < tally.len() ==> (#[trigger] tally[k]).1 <= bound,
    ensures
        bump(tally, name).len() <= tally.len() + 1,
        tally.len() <= bump(tally, name).len(),
        forall|k: int|
            0 <= k < bump(tally, name).len() ==> (#[trigger] bump(tally, name)[k]).1 <= bound + 1,
    decreases tally.len(),
{
    if tally.len() > 0 && tally[0].0 != name {
        let rest = tally.skip(1);
        assert forall|k: int| 0 <= k < rest.len() implies (#[trigger] rest[k]).1 <= bound by {
            assert(rest[k] == tally[k + 1]);
        }
        lemma_bump_bound(rest, name, bound);
    }
}

/// Counts one more occurrence of `name`.
pub fn count_name(counts: &mut Vec<(String, usize)>, name: &str)
    requires
        forall|k: int| 0 <= k < old(counts)@.len() ==> (#[trigger] old(counts)@[k]).1 < usize::MAX,
    ensures
        tally_view(final(counts)@) == bump(tally_view(old(counts)@), name@),
{
    let ghost before = tally_view(counts@);
    let mut i: usize = 0;
    while i < counts.len()
        invariant
            i <= counts.len(),
            counts@ == old(counts)@,
            before == tally_view(old(counts)@),
            forall|k: int| 0 <= k < counts@.len() ==> (#[trigger] counts@[k]).1 < usize::MAX,
            forall|k: int| 0 <= k < i ==> (#[trigger] counts@[k]).0@ != name@,
        decreases counts.len() - i,
    {
        if same_text(counts[i].0.as_str(), name) {
            let found = counts[i].1;
            let entry = (name.to_string(), found + 1);
            counts.push(entry);
            let _ = counts.swap_remove(i);
            proof {
                assert forall|k: int| 0 <= k < i implies (#[trigger] before[k]).0 != name@ by {
                    assert(before[k].0 == old(counts)@[k].0@);
                }
                lemma_bump_at(before, i as int, name@);
                assert(tally_view(counts@) =~= before.update(
                    i as int,
                    (name@, (found + 1) as nat),
                ));
            }
            return ;
        }
        i = i + 1;
    }
    counts.push((name.to_string(), 1));
    proof {
        assert forall|k: int| 0 <= k < before.len() implies (#[trigger] before[k]).0 != name@ by {
            assert(before[k].0 == old(counts)@[k].0@);
        }
        lemma_bump_new(before, name@);
        assert(tally_view(counts@) =~= before.push((name@, 1nat)));
    }
}

/// Bumping a name that is not in the tally appends it with the count one.
pub proof fn lemma_bump_new(tally: Seq<(Seq<char>, nat)>, name: Seq<char>)
    requires
        forall|k: int| 0 <= k < tally.len() ==> (#[trigger] tally[k]).0 != name,
    ensures
        bump(tally, name) == tally.push((name, 1nat)),
    decreases tally.len(),
{
    if tally.len() > 0 {
        let rest = tally.skip(1);
        assert forall|k: int| 0 <= k < rest.len() implies (#[trigger] rest[k]).0 != name by {
            assert(rest[k] == tally[k + 1]);
        }
        lemma_bump_new(rest, name);
        assert(seq![tally[0]] + rest.push((name, 1nat)) =~= tally.push((name, 1nat)));
    } else {
        assert(seq![(name, 1nat)] =~= tally.push((name, 1nat)));
    }
}

/// Bumping the name found first at position `i` raises the count there and
/// touches nothing else.
pub proof fn lemma_bump_at(tally: Seq<(Seq<char>, nat)>, i: int, name: Seq<char>)
    requires
        0 <= i < tally.len(),
        tally[i].0 == name,
        forall|k: int| 0 <= k < i ==> (#[trigger] tally[k]).0 != name,
    ensures
        bump(tally, name) == tally.update(i, (name, tally[i].1 + 1)),
    decreases i,
{
    let rest = tally.skip(1);
    if i == 0 {
        assert(seq![(name, tally[0].1 + 1)] + rest =~= tally.update(0, (name, tally[0].1 + 1)));
    } else {
        assert(tally[0].0 != name);
        assert(rest[i - 1] == tally[i]);
        assert forall|k: int| 0 <= k < i - 1 implies (#[trigger] rest[k]).0 != name by {
            assert(rest[k] == tally[k + 1]);
        }
        lemma_bump_at(rest, i - 1, name);
        assert(seq![tally[0]] + rest.update(i - 1, (name, tally[i].1 + 1)) =~= tally.update(
            i,
            (name, tally[i].1 + 1),
        ));
    }
}

/// Whether `after` is `before` with its categories and tags filled in from
/// its front matter, and nothing else changed.
pub open spec fn is_classified(before: Post, after: Post) -> bool {
    &&& texts(after.categories@) == listed(before, "categories"@)
    &&& texts(after.tags@) == listed(before, "tags"@)
    &&& after.title == before.title
    &&& after.date == before.date
    &&& after.updated == before.updated
    &&& after.comments == before.comments
    &&& after.layout == before.layout
    &&& after.content == before.content
    &&& after.rendered_content == before.rendered_content
    &&& after.source == before.source
    &&& after.path == before.path
    &&& after.permalink == before.permalink
    &&& after.excerpt == before.excerpt
    &&& after.url == before.url
    &&& after.front_matter == before.front_matter
}

/// Whether `category` is the category for one entry of a tally: it carries
/// the name and the count, its slug is the slug of the name, and its path is
/// `categories/` followed by the name in lower case.
pub open spec fn is_category_for(category: Category, entry: (Seq<char>, nat)) -> bool {
    &&& category.name@ == entry.0
    &&& category.slug@ == slug_text(entry.0)
    &&& category.path@ == "categories/"@ + lowercase_text(entry.0)
    &&& category.parent is None
    &&& category.post_count == entry.1
}

/// Whether `tag` is the tag for one entry of a tally.
pub open spec fn is_tag_for(tag: Tag, entry: (Seq<char>, nat)) -> bool {
    &&& tag.name@ == entry.0
    &&& tag.slug@ == slug_text(entry.0)
    &&& tag.path@ == "tags/"@ + lowercase_text(entry.0)
    &&& tag.post_count == entry.1
}

/// Whether `categories` are the categories of `posts`: one for each distinct
/// name the posts list, in the order in which the names occur first, each
/// counting the occurrences of its name.
pub open spec fn are_categories_of(categories: Seq<Category>, posts: Seq<Post>) -> bool {
    let entries = tally(all_listed(posts, "categories"@));
    &&& categories.len() == entries.len()
    &&& (forall|k: int|
        0 <= k < categories.len() ==> is_category_for(#[trigger] categories[k], entries[k]))
}

/// Whether `tags` are the tags of `posts`.
pub open spec fn are_tags_of(tags: Seq<Tag>, posts: Seq<Post>) -> bool {
    let entries = tally(all_listed(posts, "tags"@));
    &&& tags.len() == entries.len()
    &&& (forall|k: int| 0 <= k < tags.len() ==> is_tag_for(#[trigger] tags[k], entries[k]))
}

/// The names listed up to a post are among the names listed by all posts.
proof fn lemma_listed_prefix(posts: Seq<Post>, i: int, key: Seq<char>)
    requires
        0 <= i <= posts.len(),
    ensures
        all_listed(posts.take(i), key).len() <= all_listed(posts, key).len(),
    decreases posts.len() - i,
{
    if i < posts.len() {
        lemma_listed_prefix(posts, i + 1, key);
        assert(posts.take(i + 1).drop_last() == posts.take(i));
    } else {
        assert(posts.take(i) == posts);
    }
}

/// Counts every name of `names` into `counts`.
fn count_names(counts: &mut Vec<(String, usize)>, names: &Vec<String>, Ghost(seen): Ghost<
    Seq<Seq<char>>,
>)
    requires
        tally_view(old(counts)@) == tally(seen),
        seen.len() + names@.len() <= usize::MAX,
        forall|k: int| 0 <= k < old(counts)@.len() ==> (#[trigger] old(counts)@[k]).1 <= seen.len(),
    ensures
        tally_view(final(counts)@) == tally(seen + texts(names@)),
        forall|k: int|
            0 <= k < final(counts)@.len() ==> (#[trigger] final(counts)@[k]).1 <= seen.len()
                + names@.len(),
{
    let mut j: usize = 0;
    assert(seen + texts(names@).take(0) =~= seen);
    while j < names.len()
        invariant
            j <= names.len(),
            seen.len() + names@.len() <= usize::MAX,
            tally_view(counts@) == tally(seen + texts(names@).take(j as int)),
            forall|k: int| 0 <= k < counts@.len() ==> (#[trigger] counts@[k]).1 <= seen.len() + j,
        decreases names.len() - j,
    {
        let ghost so_far = seen + texts(names@).take(j as int);
        let ghost next = seen + texts(names@).take(j + 1);
        proof {
            assert(next.drop_last() =~= so_far);
            assert(next.last() == names@[j as int]@);
            let view = tally_view(counts@);
            assert forall|k: int| 0 <= k < view.len() implies (#[trigger] view[k]).1 <= seen.len()
                + j by {
                assert(view[k].1 == counts@[k].1);
            }
            lemma_bump_bound(view, names@[j as int]@, (seen.len() + j) as nat);
        }
        count_name(counts, names[j].as_str());
        proof {
            let view = tally_view(counts@);
            assert forall|k: int| 0 <= k < counts@.len() implies (#[trigger] counts@[k]).1
                <= seen.len() + j + 1 by {
                assert(view[k].1 == counts@[k].1);
            }
        }
        j = j + 1;
    }
    assert(texts(names@).take(j as int) == texts(names@));
}

/// Runs the classification stage.
///
/// Every post gets the categories and tags its front matter lists; the
/// category and tag collections are built anew from all posts. Nothing of a
/// former classification is kept, so that running the stage again on
/// unchanged posts yields the same collections.
pub fn classify(posts: &mut Vec<Post>) -> (r: (Vec<Category>, Vec<Tag>))
    requires
        all_listed(old(posts)@, "categories"@).len() <= usize::MAX,
        all_listed(old(posts)@, "tags"@).len() <= usize::MAX,
    ensures
        final(posts)@.len() == old(posts)@.len(),
        forall|i: int|
            0 <= i < old(posts)@.len() ==> is_classified(
                old(posts)@[i],
                #[trigger] final(posts)@[i],
            ),
        are_categories_of(r.0@, old(posts)@),
        are_tags_of(r.1@, old(posts)@),
{
    let ghost before = posts@;
    let mut category_counts: Vec<(String, usize)> = Vec::new();
    let mut tag_counts: Vec<(String, usize)> = Vec::new();
    let mut i: usize = 0;
    assert(tally_view(category_counts@) =~= tally(all_listed(before.take(0), "categories"@)));
    assert(tally_view(tag_counts@) =~= tally(all_listed(before.take(0), "tags"@)));
    while i < posts.len()
        invariant
            i <= posts.len(),
            posts@.len() == before.len(),
            all_listed(before, "categories"@).len() <= usize::MAX,
            all_listed(before, "tags"@).len() <= usize::MAX,
            forall|k: int| 0 <= k < i ==> is_classified(before[k], #[trigger] posts@[k]),
            forall|k: int| i <= k < posts@.len() ==> #[trigger] posts@[k] == before[k],
            tally_view(category_counts@) == tally(all_listed(before.take(i as int), "categories"@)),
            tally_view(tag_counts@) == tally(all_listed(before.take(i as int), "tags"@)),
            forall|k: int|
                0 <= k < category_counts@.len() ==> (#[trigger] category_counts@[k]).1
                    <= all_listed(before.take(i as int), "categories"@).len(),
            forall|k: int|
                0 <= k < tag_counts@.len() ==> (#[trigger] tag_counts@[k]).1 <= all_listed(
                    before.take(i as int),
                    "tags"@,
                ).len(),
        decreases posts.len() - i,
    {
        proof {
            assert(before.take(i + 1).drop_last() == before.take(i as int));
            assert(before.take(i + 1).last() == before[i as int]);
            lemma_listed_prefix(before, i + 1, "categories"@);
            lemma_listed_prefix(before, i + 1, "tags"@);
        }
        let categories = names_of(find(&posts[i].front_matter, "categories"));
        let tags = names_of(find(&posts[i].front_matter, "tags"));
        count_names(
            &mut category_counts,
            &categories,
            Ghost(all_listed(before.take(i as int), "categories"@)),
        );
        count_names(&mut tag_counts, &tags, Ghost(all_listed(before.take(i as int), "tags"@)));
        posts[i].categories = categories;
        posts[i].tags = tags;
        i = i + 1;
    }
    assert(before.take(i as int) == before);
    let ghost category_entries = tally(all_listed(before, "categories"@));
    let ghost tag_entries = tally(all_listed(before, "tags"@));
    let mut categories: Vec<Category> = Vec::new();
    let mut c: usize = 0;
    while c < category_counts.len()
        invariant
            c <= category_counts.len(),
            categories@.len() == c,
            tally_view(category_counts@) == category_entries,
            forall|k: int|
                0 <= k < c ==> is_category_for(#[trigger] categories@[k], category_entries[k]),
        decreases category_counts.len() - c,
    {
        let name = category_counts[c].0.clone();
        let lowered = to_lowercase(name.as_str());
        assert(category_entries[c as int] == (
            category_counts@[c as int].0@,
            category_counts@[c as int].1 as nat,
        ));
        categories.push(
            Category {
                slug: slugify(name.as_str()),
                path: concat("categories/", lowered.as_str()),
                name,
                parent: None,
                post_count: category_counts[c].1,
            },
        );
        c = c + 1;
    }
    let mut tags: Vec<Tag> = Vec::new();
    let mut t: usize = 0;
    while t < tag_counts.len()
        invariant
            t <= tag_counts.len(),
            tags@.len() == t,
            tally_view(tag_counts@) == tag_entries,
            forall|k: int| 0 <= k < t ==> is_tag_for(#[trigger] tags@[k], tag_entries[k]),
        decreases tag_counts.len() - t,
    {
        let name = tag_counts[t].0.clone();
        let lowered = to_lowercase(name.as_str());
        assert(tag_entries[t as int] == (tag_counts@[t as int].0@, tag_counts@[t as int].1 as nat));
        tags.push(
            Tag {
                slug: slugify(name.as_str()),
                path: concat("tags/", lowered.as_str()),
                name,
                post_count: tag_counts[t].1,
            },
        );
        t = t + 1;
    }
    (categories, tags)
}

/// What a post lists depends on its front matter alone.
pub proof fn lemma_listed_by_front_matter(before: Seq<Post>, after: Seq<Post>, key: Seq<char>)
    requires
        after.len() == before.len(),
        forall|i: int|
            0 <= i < before.len() ==> (#[trigger] after[i]).front_matter == before[i].front_matter,
    ensures
        all_listed(after, key) == all_listed(before, key),
    decreases before.len(),
{
    if before.len() > 0 {
        let a = after.drop_last();
        let b = before.drop_last();
        assert forall|i: int| 0 <= i < b.len() implies (#[trigger] a[i]).front_matter
            == b[i].front_matter by {
            assert(a[i] == after[i]);
        }
        lemma_listed_by_front_matter(b, a, key);
        assert(after.last() == after[after.len() - 1]);
    }
}

/// Whether two category collections read the same, entry by entry.
pub open spec fn same_categories(first: Seq<Category>, second: Seq<Category>) -> bool {
    &&& first.len() == second.len()
    &&& (forall|k: int|
        0 <= k < first.len() ==> {
            &&& (#[trigger] first[k]).name@ == second[k].name@
            &&& first[k].slug@ == second[k].slug@
            &&& first[k].path@ == second[k].path@
            &&& first[k].parent is None
            &&& second[k].parent is None
            &&& first[k].post_count == second[k].post_count
        })
}

/// Whether two tag collections read the same, entry by entry.
pub open spec fn same_tags(first: Seq<Tag>, second: Seq<Tag>) -> bool {
    &&& first.len() == second.len()
    &&& (forall|k: int|
        0 <= k < first.len() ==> {
            &&& (#[trigger] first[k]).name@ == second[k].name@
            &&& first[k].slug@ == second[k].slug@
            &&& first[k].path@ == second[k].path@
            &&& first[k].post_count == second[k].post_count
        })
}

/// Classification is idempotent.
///
/// Let `classified` be the posts after one run of the stage on `posts`, with
/// the collections `categories` and `tags`. A second run, on `classified`,
/// leaves every post as it is and yields collections that read exactly as
/// those of the first run.
pub proof fn lemma_classification_idempotent(
    posts: Seq<Post>,
    classified: Seq<Post>,
    categories: Seq<Category>,
    tags: Seq<Tag>,
    again: Seq<Post>,
    categories_again: Seq<Category>,
    tags_again: Seq<Tag>,
)
    requires
        classified.len() == posts.len(),
        forall|i: int| 0 <= i < posts.len() ==> is_classified(posts[i], #[trigger] classified[i]),
        are_categories_of(categories, posts),
        are_tags_of(tags, posts),
        again.len() == classified.len(),
        forall|i: int|
            0 <= i < classified.len() ==> is_classified(classified[i], #[trigger] again[i]),
        are_categories_of(categories_again, classified),
        are_tags_of(tags_again, classified),
    ensures
        same_categories(categories, categories_again),
        same_tags(tags, tags_again),
        forall|i: int|
            0 <= i < classified.len() ==> {
                &&& texts((#[trigger] again[i]).categories@) == texts(classified[i].categories@)
                &&& texts(again[i].tags@) == texts(classified[i].tags@)
            },
{
    assert forall|i: int| 0 <= i < posts.len() implies (#[trigger] classified[i]).front_matter
        == posts[i].front_matter by {
        assert(is_classified(posts[i], classified[i]));
    }
    lemma_listed_by_front_matter(posts, classified, "categories"@);
    lemma_listed_by_front_matter(posts, classified, "tags"@);
    let category_entries = tally(all_listed(posts, "categories"@));
    assert forall|k: int| 0 <= k < categories.len() implies {
        &&& (#[trigger] categories[k]).name@ == categories_again[k].name@
        &&& categories[k].slug@ == categories_again[k].slug@
        &&& categories[k].path@ == categories_again[k].path@
        &&& categories[k].parent is None
        &&& categories_again[k].parent is None
        &&& categories[k].post_count == categories_again[k].post_count
    } by {
        assert(is_category_for(categories[k], category_entries[k]));
        assert(is_category_for(categories_again[k], category_entries[k]));
    }
    let tag_entries = tally(all_listed(posts, "tags"@));
    assert forall|k: int| 0 <= k < tags.len() implies {
        &&& (#[trigger] tags[k]).name@ == tags_again[k].name@
        &&& tags[k].slug@ == tags_again[k].slug@
        &&& tags[k].path@ == tags_again[k].path@
        &&& tags[k].post_count == tags_again[k].post_count
    } by {
        assert(is_tag_for(tags[k], tag_entries[k]));
        assert(is_tag_for(tags_again[k], tag_entries[k]));
    }
    assert forall|i: int| 0 <= i < classified.len() implies {
        &&& texts((#[trigger] again[i]).categories@) == texts(classified[i].categories@)
        &&& texts(again[i].tags@) == texts(classified[i].tags@)
    } by {
        assert(is_classified(posts[i], classified[i]));
        assert(is_classified(classified[i], again[i]));
    }
}

/// The three shapes of a front-matter entry: a list of two texts yields
/// exactly the two names, a single text yields exactly that name, and an
/// absent key yields no name. Any other shape yields no name either.
pub proof fn lemma_listed_shapes(items: Vec<Value>, a: String, b: String)
    requires
        items@ == seq![Value::String(a), Value::String(b)],
    ensures
        names_in(Some(Value::Sequence(items))) == seq![a@, b@],
        names_in(Some(Value::String(a))) == seq![a@],
        names_in(None) == Seq::<Seq<char>>::empty(),
        forall|flag: bool| names_in(Some(Value::Bool(flag))) == Seq::<Seq<char>>::empty(),
        names_in(Some(Value::Null)) == Seq::<Seq<char>>::empty(),
{
    let two = items@;
    let one = two.drop_last();
    assert(one =~= seq![Value::String(a)]);
    assert(one.drop_last() =~= Seq::<Value>::empty());
    assert(strings_of(one.drop_last()) == Seq::<Seq<char>>::empty());
    assert(strings_of(one) =~= seq![a@]);
    assert(strings_of(two) =~= seq![a@, b@]);
}

/// Every count of a tally is the number of occurrences of its name, and the
/// names of a tally are exactly the names that occur.
pub proof fn lemma_tally_counts(names: Seq<Seq<char>>, name: Seq<char>)
    ensures
        forall|k: int|
            0 <= k < tally(names).len() && (#[trigger] tally(names)[k]).0 == name ==> tally(
                names,
            )[k].1 == occurrences(names, name),
        occurrences(names, name) > 0 <==> exists|k: int|
            0 <= k < tally(names).len() && (#[trigger] tally(names)[k]).0 == name,
        forall|k: int, l: int|
            0 <= k < l < tally(names).len() ==> (#[trigger] tally(names)[k]).0 != (
            #[trigger] tally(names)[l]).0,
    decreases names.len(),
{
    if names.len() > 0 {
        let front = names.drop_last();
        lemma_tally_counts(front, name);
        lemma_bump_effect(tally(front), names.last(), name);
        let t = tally(front);
        let u = tally(names);
        let last = names.last();
        if occurrences(names, name) > 0 {
            if last == name {
                if u.len() == t.len() + 1 {
                    assert(u[t.len() as int].0 == name);
                } else {
                    let k = choose|k: int| 0 <= k < t.len() && (#[trigger] t[k]).0 == last;
                    assert(u[k].0 == name);
                }
            } else {
                let k = choose|k: int| 0 <= k < t.len() && (#[trigger] t[k]).0 == name;
                assert(u[k].0 == name);
            }
        }
        if exists|k: int| 0 <= k < u.len() && (#[trigger] u[k]).0 == name {
            let k = choose|k: int| 0 <= k < u.len() && (#[trigger] u[k]).0 == name;
            if k < t.len() {
                assert(u[k].0 == t[k].0);
                assert(t[k].0 == name);
            } else {
                assert(u[t.len() as int] == (last, 1nat));
            }
        }
    } else {
        assert(tally(names).len() == 0);
    }
}

/// What one bump does, entry by entry: the bumped name appears exactly once
/// with its count raised, every other entry stays, and no name is doubled.
proof fn lemma_bump_effect(t: Seq<(Seq<char>, nat)>, bumped: Seq<char>, name: Seq<char>)
    requires
        forall|k: int, l: int| 0 <= k < l < t.len() ==> (#[trigger] t[k]).0 != (#[trigger] t[l]).0,
    ensures
        t.len() <= bump(t, bumped).len() <= t.len() + 1,
        forall|k: int| 0 <= k < t.len() ==> (#[trigger] bump(t, bumped)[k]).0 == t[k].0,
        forall|k: int|
            0 <= k < t.len() ==> (#[trigger] bump(t, bumped)[k]).1 == t[k].1 + if t[k].0
                == bumped {
                1nat
            } else {
                0nat
            },
        bump(t, bumped).len() == t.len() + 1 ==> bump(t, bumped)[t.len() as int] == (bumped, 1nat)
            && forall|k: int| 0 <= k < t.len() ==> (#[trigger] t[k]).0 != bumped,
        bump(t, bumped).len() == t.len() ==> exists|k: int|
            0 <= k < t.len() && (#[trigger] t[k]).0 == bumped,
        forall|k: int, l: int|
            0 <= k < l < bump(t, bumped).len() ==> (#[trigger] bump(t, bumped)[k]).0 != (
            #[trigger] bump(t, bumped)[l]).0,
    decreases t.len(),
{
    if exists|i: int| 0 <= i < t.len() && (#[trigger] t[i]).0 == bumped {
        let i = choose|i: int| 0 <= i < t.len() && (#[trigger] t[i]).0 == bumped;
        assert forall|k: int| 0 <= k < i implies (#[trigger] t[k]).0 != bumped by {}
        lemma_bump_at(t, i, bumped);
    } else {
        lemma_bump_new(t, bumped);
    }
}

/// The number of names the posts list under `key`, if it can be counted.
pub fn listed_total(posts: &Vec<Post>, key: &str) -> (r: Option<usize>)
    ensures
        match r {
            Some(n) => n == all_listed(posts@, key@).len(),
            None => all_listed(posts@, key@).len() > usize::MAX,
        },
{
    let mut total: usize = 0;
    let mut i: usize = 0;
    assert(all_listed(posts@.take(0), key@) =~= Seq::<Seq<char>>::empty());
    while i < posts.len()
        invariant
            i <= posts.len(),
            total == all_listed(posts@.take(i as int), key@).len(),
        decreases posts.len() - i,
    {
        proof {
            assert(posts@.take(i + 1).drop_last() == posts@.take(i as int));
            assert(posts@.take(i + 1).last() == posts@[i as int]);
            lemma_listed_prefix(posts@, i + 1, key@);
        }
        let names = names_of(find(&posts[i].front_matter, key));
        assert(texts(names@).len() == names@.len());
        match total.checked_add(names.len()) {
            Some(sum) => {
                total = sum;
            },
            None => {
                return None;
            },
        }
        i = i + 1;
    }
    assert(posts@.take(i as int) == posts@);
    Some(total)
}

/// Runs the classification stage wherever the names of the posts can be
/// counted; where they cannot, nothing is changed.
pub fn classify_checked(posts: &mut Vec<Post>) -> (r: Option<(Vec<Category>, Vec<Tag>)>)
    ensures
        match r {
            Some(found) => {
                &&& all_listed(old(posts)@, "categories"@).len() <= usize::MAX
                &&& all_listed(old(posts)@, "tags"@).len() <= usize::MAX
                &&& final(posts)@.len() == old(posts)@.len()
                &&& (forall|i: int|
                    0 <= i < old(posts)@.len() ==> is_classified(
                        old(posts)@[i],
                        #[trigger] final(posts)@[i],
                    ))
                &&& are_categories_of(found.0@, old(posts)@)
                &&& are_tags_of(found.1@, old(posts)@)
            },
            None => {
                &&& (all_listed(old(posts)@, "categories"@).len() > usize::MAX || all_listed(
                    old(posts)@,
                    "tags"@,
                ).len() > usize::MAX)
                &&& *final(posts) == *old(posts)
            },
        },
{
    if listed_total(posts, "categories").is_none() {
        return None;
    }
    if listed_total(posts, "tags").is_none() {
        return None;
    }
    Some(classify(posts))
}

} // verus!
