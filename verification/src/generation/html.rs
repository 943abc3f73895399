//! The pages that are written without a template: listings of posts under a
//! category, a tag or a month, and the frame around them.

use vstd::prelude::*;
use vstd::string::*;
use crate::models::config::Config;
use crate::models::types::Post;
use crate::text::{decimal, decimal_string, signed_decimal, signed_decimal_string};
use crate::utils::time::{date_text, format_date};

verus! {

/// The top of every page: the document head with the page title, the site
/// header with the site title and, where there is one, the subtitle, and the
/// navigation.
pub open spec fn html_header(config: Config, title: Seq<char>) -> Seq<char> {
    "<!DOCTYPE html>\n<html lang=\""@ + (match config.language {
        Some(language) => language@,
        None => Seq::empty(),
    })
        + "\">\n<head>\n    <meta charset=\"UTF-8\">\n    <meta name=\"viewport\" content=\"width=device-width, initial-scale=1.0\">\n    <title>"@
        + title
        + "</title>\n    <link rel=\"stylesheet\" href=\"/css/style.css\">\n</head>\n<body>\n    <header class=\"site-header\">\n        <div class=\"container\">\n            <h1><a href=\"/\">"@
        + config.title@ + "</a></h1>\n"@ + (match config.subtitle {
        Some(subtitle) => "            <p class=\"site-description\">"@ + subtitle@ + "</p>\n"@,
        None => Seq::empty(),
    })
        + "            <nav class=\"site-nav\">\n                <a href=\"/\">Home</a>\n                <a href=\"/archives/\">Archives</a>\n                <a href=\"/categories/\">Categories</a>\n                <a href=\"/tags/\">Tags</a>\n            </nav>\n        </div>\n    </header>\n    <main class=\"container\">\n"@
}

/// The bottom of every page: the copyright line with the year and the site
/// title and, where there is one, the author.
pub open spec fn html_footer(config: Config, year: int) -> Seq<char> {
    "    </main>\n    <footer class=\"site-footer\">\n        <div class=\"container\">\n            <p>&copy; "@
        + signed_decimal(year) + " "@ + config.title@ + "\n"@ + (match config.author {
        Some(author) => " by "@ + author@ + "\n"@,
        None => Seq::empty(),
    }) + "            </p>\n        </div>\n    </footer>\n</body>\n</html>\n"@
}

/// Appends the top of a page to `content`.
pub fn write_html_header(config: &Config, content: &mut String, title: &str)
    ensures
        final(content)@ == old(content)@ + html_header(*config, title@),
{
    let mut out = String::new();
    out.append("<!DOCTYPE html>\n<html lang=\"");
    match &config.language {
        Some(language) => out.append(language.as_str()),
        None => {},
    }
    out.append(
        "\">\n<head>\n    <meta charset=\"UTF-8\">\n    <meta name=\"viewport\" content=\"width=device-width, initial-scale=1.0\">\n    <title>",
    );
    out.append(title);
    out.append(
        "</title>\n    <link rel=\"stylesheet\" href=\"/css/style.css\">\n</head>\n<body>\n    <header class=\"site-header\">\n        <div class=\"container\">\n            <h1><a href=\"/\">",
    );
    out.append(config.title.as_str());
    out.append("</a></h1>\n");
    match &config.subtitle {
        Some(subtitle) => {
            out.append("            <p class=\"site-description\">");
            out.append(subtitle.as_str());
            out.append("</p>\n");
        },
        None => {},
    }
    out.append(
        "            <nav class=\"site-nav\">\n                <a href=\"/\">Home</a>\n                <a href=\"/archives/\">Archives</a>\n                <a href=\"/categories/\">Categories</a>\n                <a href=\"/tags/\">Tags</a>\n            </nav>\n        </div>\n    </header>\n    <main class=\"container\">\n",
    );
    assert(out@ =~= html_header(*config, title@));
    content.append(out.as_str());
}

/// Appends the bottom of a page to `content`.
pub fn write_html_footer(config: &Config, content: &mut String, year: i32)
    ensures
        final(content)@ == old(content)@ + html_footer(*config, year as int),
{
    let mut out = String::new();
    out.append(
        "    </main>\n    <footer class=\"site-footer\">\n        <div class=\"container\">\n            <p>&copy; ",
    );
    let digits = signed_decimal_string(year as i64);
    out.append(digits.as_str());
    out.append(" ");
    out.append(config.title.as_str());
    out.append("\n");
    match &config.author {
        Some(author) => {
            out.append(" by ");
            out.append(author.as_str());
            out.append("\n");
        },
        None => {},
    }
    out.append("            </p>\n        </div>\n    </footer>\n</body>\n</html>\n");
    assert(out@ =~= html_footer(*config, year as int));
    content.append(out.as_str());
}

/// The entry of one post in a listing: its title, linked, and its day.
pub open spec fn post_item(post: Post) -> Seq<char> {
    "        <article class=\"post-item\">\n            <h2><a href=\"/"@ + post.path@ + "\">"@
        + post.title@ + "</a></h2>\n            <time>"@ + date_text(post.date)
        + "</time>\n        </article>\n"@
}

/// The entries of the posts at the given positions, in order.
pub open spec fn post_items(posts: Seq<Post>, members: Seq<int>) -> Seq<char>
    decreases members.len(),
{
    if members.len() == 0 {
        Seq::empty()
    } else {
        post_items(posts, members.drop_last()) + post_item(posts[members.last()])
    }
}

/// What a listing lists: a category, a tag, or a month of the archive.
#[derive(Clone, Copy, Debug, PartialEq, Eq, Structural)]
pub enum ListingKind {
    Category,
    Tag,
    Archive,
}

impl ListingKind {
    /// The word that heads the listing.
    pub open spec fn label(self) -> Seq<char> {
        match self {
            ListingKind::Category => "Category"@,
            ListingKind::Tag => "Tag"@,
            ListingKind::Archive => "Archive"@,
        }
    }

    /// The style class of the listing.
    pub open spec fn class(self) -> Seq<char> {
        match self {
            ListingKind::Category => "category-posts"@,
            ListingKind::Tag => "tag-posts"@,
            ListingKind::Archive => "archive-posts"@,
        }
    }

    fn label_text(self) -> (r: &'static str)
        ensures
            r@ == self.label(),
    {
        match self {
            ListingKind::Category => "Category",
            ListingKind::Tag => "Tag",
            ListingKind::Archive => "Archive",
        }
    }

    fn class_text(self) -> (r: &'static str)
        ensures
            r@ == self.class(),
    {
        match self {
            ListingKind::Category => "category-posts",
            ListingKind::Tag => "tag-posts",
            ListingKind::Archive => "archive-posts",
        }
    }
}

/// The page that lists the posts filed under `name`: the frame, a heading
/// with the name, the number of posts, and one entry for each post.
pub open spec fn listing_page(
    config: Config,
    kind: ListingKind,
    name: Seq<char>,
    posts: Seq<Post>,
    members: Seq<int>,
    year: int,
) -> Seq<char> {
    html_header(config, kind.label() + ": "@ + name) + "    <div class=\""@ + kind.class()
        + "\">\n        <h1>"@ + kind.label() + ": "@ + name + "</h1>\n        <p>Posts: "@
        + decimal(members.len()) + "</p>\n"@ + post_items(posts, members) + "    </div>\n"@
        + html_footer(config, year)
}

/// Writes the page that lists the posts filed under `name`.
pub fn write_listing_page(
    config: &Config,
    kind: ListingKind,
    name: &str,
    posts: &Vec<Post>,
    members: &Vec<usize>,
    year: i32,
) -> (r: String)
    requires
        forall|k: int| 0 <= k < members@.len() ==> (#[trigger] members@[k]) < posts@.len(),
    ensures
        r@ == listing_page(
            *config,
            kind,
            name@,
            posts@,
            members@.map_values(|i: usize| i as int),
            year as int,
        ),
{
    let ghost at = members@.map_values(|i: usize| i as int);
    let mut title = kind.label_text().to_string();
    title.append(": ");
    title.append(name);
    let mut out = String::new();
    write_html_header(config, &mut out, title.as_str());
    out.append("    <div class=\"");
    out.append(kind.class_text());
    out.append("\">\n        <h1>");
    out.append(title.as_str());
    out.append("</h1>\n        <p>Posts: ");
    let count = decimal_string(members.len() as u64);
    out.append(count.as_str());
    out.append("</p>\n");
    let ghost head = out@;
    let mut i: usize = 0;
    assert(at.take(0) =~= Seq::<int>::empty());
    while i < members.len()
        invariant
            i <= members.len(),
            at == members@.map_values(|i: usize| i as int),
            forall|k: int| 0 <= k < members@.len() ==> (#[trigger] members@[k]) < posts@.len(),
            out@ == head + post_items(posts@, at.take(i as int)),
        decreases members.len() - i,
    {
        let post = &posts[members[i]];
        proof {
            assert(at.take(i + 1).drop_last() == at.take(i as int));
            assert(at.take(i + 1).last() == members@[i as int] as int);
        }
        let mut item = String::new();
        item.append("        <article class=\"post-item\">\n            <h2><a href=\"/");
        item.append(post.path.as_str());
        item.append("\">");
        item.append(post.title.as_str());
        item.append("</a></h2>\n            <time>");
        let day = format_date(&post.date);
        item.append(day.as_str());
        item.append("</time>\n        </article>\n");
        assert(item@ =~= post_item(*post));
        out.append(item.as_str());
        assert(out@ =~= head + post_items(posts@, at.take(i + 1)));
        i = i + 1;
    }
    assert(at.take(i as int) == at);
    out.append("    </div>\n");
    write_html_footer(config, &mut out, year);
    assert(out@ =~= listing_page(*config, kind, name@, posts@, at, year as int));
    out
}

} // verus!
