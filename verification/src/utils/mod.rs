//! Small helpers for paths, links and slugs.

pub mod markdown;
pub mod time;

use vstd::prelude::*;
use vstd::string::*;
use crate::text::{concat, ends_with_char, same_text, starts_with_char};

use crate::text::{replace_all, replace_text};
use crate::utils::time::{write_instant, written};

verus! {

/// The URL-friendly form that the `slug` crate gives a text: lower-case ASCII
/// letters, digits and single hyphens.
pub uninterp spec fn slug_text(text: Seq<char>) -> Seq<char>;

/// Turns a title into a URL-friendly alias.
///
/// Calls `slug::slugify`, which depends on its argument alone; the contract
/// names its result and claims nothing more.
#[verifier::external_body]
pub fn slugify(text: &str) -> (r: String)
    ensures
        r@ == slug_text(text@),
{
    slug::slugify(text)
}

/// The extension that `std::path::Path::extension` finds in a path: the part
/// of the file name after its last dot, if the name has one that is not its
/// first character.
pub uninterp spec fn path_extension(path: Seq<char>) -> Option<Seq<char>>;

/// The extension of the file that `path` names.
///
/// Calls `std::path::Path::extension`; the contract names its result.
#[verifier::external_body]
pub(crate) fn extension_of(path: &str) -> (r: Option<String>)
    ensures
        match r {
            Some(e) => path_extension(path@) == Some(e@),
            None => path_extension(path@).is_none(),
        },
{
    std::path::Path::new(path).extension().map(|e| e.to_string_lossy().into_owned())
}

/// Whether an extension marks a Markdown file.
pub open spec fn markdown_extension(extension: Option<Seq<char>>) -> bool {
    extension == Some("md"@) || extension == Some("markdown"@)
}

/// Tells whether a file with the given extension is a Markdown file: the
/// extension is `md` or `markdown`, in exactly this spelling.
pub fn is_markdown_extension(extension: Option<&str>) -> (r: bool)
    ensures
        r == markdown_extension(
            match extension {
                Some(e) => Some(e@),
                None => None,
            },
        ),
{
    match extension {
        Some(e) => same_text(e, "md") || same_text(e, "markdown"),
        None => false,
    }
}

/// Tells whether `path` names a Markdown file.
pub fn is_markdown_file(path: &str) -> (r: bool)
    ensures
        r == markdown_extension(path_extension(path@)),
{
    match extension_of(path) {
        Some(e) => is_markdown_extension(Some(e.as_str())),
        None => is_markdown_extension(None),
    }
}

/// `path` with a slash at its end, added only where it is missing.
pub open spec fn with_trailing_slash(path: Seq<char>) -> Seq<char> {
    if path.len() > 0 && path.last() == '/' {
        path
    } else {
        path + seq!['/']
    }
}

/// `path` with a slash at its start, added only where it is missing.
pub open spec fn with_leading_slash(path: Seq<char>) -> Seq<char> {
    if path.len() > 0 && path[0] == '/' {
        path
    } else {
        seq!['/'] + path
    }
}

/// Makes sure that `path` ends with a slash.
pub fn ensure_trailing_slash(path: &str) -> (r: String)
    ensures
        r@ == with_trailing_slash(path@),
{
    if ends_with_char(path, '/') {
        path.to_string()
    } else {
        let mut out = path.to_string();
        out.push('/');
        out
    }
}

/// Makes sure that `path` starts with a slash.
pub fn ensure_leading_slash(path: &str) -> (r: String)
    ensures
        r@ == with_leading_slash(path@),
{
    if starts_with_char(path, '/') {
        path.to_string()
    } else {
        let mut out = String::new();
        out.push('/');
        out.append(path);
        out
    }
}

/// The stem that `std::path::Path::file_stem` finds in a path: the file name
/// without its extension.
pub uninterp spec fn path_file_stem(path: Seq<char>) -> Option<Seq<char>>;

/// The stem of the file that `path` names.
///
/// Calls `std::path::Path::file_stem`; the contract names its result.
#[verifier::external_body]
pub(crate) fn file_stem_of(path: &str) -> (r: Option<String>)
    ensures
        match r {
            Some(stem) => path_file_stem(path@) == Some(stem@),
            None => path_file_stem(path@).is_none(),
        },
{
    std::path::Path::new(path).file_stem().map(|s| s.to_string_lossy().into_owned())
}

/// The parent that `std::path::Path::parent` finds for a path: the path
/// without its last component, or `None` for a root or an empty path.
pub uninterp spec fn path_parent(path: Seq<char>) -> Option<Seq<char>>;

/// The directory that holds `path`.
///
/// Calls `std::path::Path::parent`; the contract names its result.
#[verifier::external_body]
pub(crate) fn parent_of(path: &str) -> (r: Option<String>)
    ensures
        match r {
            Some(parent) => path_parent(path@) == Some(parent@),
            None => path_parent(path@).is_none(),
        },
{
    std::path::Path::new(path).parent().map(|p| p.to_string_lossy().into_owned())
}

/// The permalink of a document: the pattern with `:year`, `:month`, `:day`,
/// `:hour`, `:minute` and `:second` replaced by what `chrono` writes for the
/// date under `%Y`, `%m`, `%d`, `%H`, `%M` and `%S`, in this order, and then
/// `:title` by the slug of the title.
pub open spec fn permalink_of(
    date: crate::models::types::Timestamp,
    slug: Seq<char>,
    pattern: Seq<char>,
) -> Seq<char> {
    let with_year = replace_all(pattern, ":year"@, written(date, "%Y"@));
    let with_month = replace_all(with_year, ":month"@, written(date, "%m"@));
    let with_day = replace_all(with_month, ":day"@, written(date, "%d"@));
    let with_hour = replace_all(with_day, ":hour"@, written(date, "%H"@));
    let with_minute = replace_all(with_hour, ":minute"@, written(date, "%M"@));
    let with_second = replace_all(with_minute, ":second"@, written(date, "%S"@));
    replace_all(with_second, ":title"@, slug)
}

/// Makes the permalink of a document from its date and title.
pub fn create_permalink(
    date: &crate::models::types::Timestamp,
    title: &str,
    pattern: &str,
) -> (r: String)
    ensures
        r@ == permalink_of(*date, slug_text(title@), pattern@),
{
    let slug = slugify(title);
    let year = write_instant(date, "%Y");
    let month = write_instant(date, "%m");
    let day = write_instant(date, "%d");
    let hour = write_instant(date, "%H");
    let minute = write_instant(date, "%M");
    let second = write_instant(date, "%S");
    let a = replace_text(pattern, ":year", year.as_str());
    let b = replace_text(a.as_str(), ":month", month.as_str());
    let c = replace_text(b.as_str(), ":day", day.as_str());
    let d = replace_text(c.as_str(), ":hour", hour.as_str());
    let e = replace_text(d.as_str(), ":minute", minute.as_str());
    let f = replace_text(e.as_str(), ":second", second.as_str());
    replace_text(f.as_str(), ":title", slug.as_str())
}

/// The items in reverse order, so that they can be taken one by one, first
/// item first, from the end.
pub fn reversed<T>(items: Vec<T>) -> (r: Vec<T>)
    ensures
        r@.len() == items@.len(),
        forall|k: int| 0 <= k < r@.len() ==> #[trigger] r@[k] == items@[items@.len() - 1 - k],
{
    let ghost all = items@;
    let mut items = items;
    let mut r: Vec<T> = Vec::new();
    while items.len() > 0
        invariant
            r@.len() + items@.len() == all.len(),
            items@ == all.take(items@.len() as int),
            forall|k: int| 0 <= k < r@.len() ==> #[trigger] r@[k] == all[all.len() - 1 - k],
        decreases items@.len(),
    {
        let last = items.pop().unwrap();
        r.push(last);
    }
    r
}

/// The whole seconds between two instants, rounded towards zero; negative
/// where `date` lies after `now`.
pub open spec fn seconds_between(
    now: crate::models::types::Timestamp,
    date: crate::models::types::Timestamp,
) -> int {
    let seconds = now.seconds - date.seconds;
    let nanos = now.nanos - date.nanos;
    if seconds < 0 && nanos > 0 {
        seconds + 1
    } else if seconds > 0 && nanos < 0 {
        seconds - 1
    } else {
        seconds
    }
}

/// How long ago something happened, in words: `just now` within the first
/// minute and for anything still to come, then minutes, hours, days, months
/// of thirty days, and years of 365 days, each rounded down.
pub open spec fn ago_text(seconds: int) -> Seq<char> {
    if seconds < 60 {
        "just now"@
    } else if seconds < 3600 {
        crate::text::decimal((seconds / 60) as nat) + " minutes ago"@
    } else if seconds < 86400 {
        crate::text::decimal((seconds / 3600) as nat) + " hours ago"@
    } else if seconds < 30 * 86400 {
        crate::text::decimal((seconds / 86400) as nat) + " days ago"@
    } else if seconds < 365 * 86400 {
        crate::text::decimal((seconds / 86400 / 30) as nat) + " months ago"@
    } else {
        crate::text::decimal((seconds / 86400 / 365) as nat) + " years ago"@
    }
}

/// Says in words how long before `now` the instant `date` lies.
pub fn relative_time_from_now(
    date: &crate::models::types::Timestamp,
    now: &crate::models::types::Timestamp,
) -> (r: String)
    ensures
        r@ == ago_text(seconds_between(*now, *date)),
{
    let whole: i128 = now.seconds as i128 - date.seconds as i128;
    let nanos: i64 = now.nanos as i64 - date.nanos as i64;
    let seconds: i128 = if whole < 0 && nanos > 0 {
        whole + 1
    } else if whole > 0 && nanos < 0 {
        whole - 1
    } else {
        whole
    };
    if seconds < 60 {
        return "just now".to_string();
    }
    let (amount, unit): (i128, &str) = if seconds < 3600 {
        (seconds / 60, " minutes ago")
    } else if seconds < 86400 {
        (seconds / 3600, " hours ago")
    } else if seconds < 30 * 86400 {
        (seconds / 86400, " days ago")
    } else if seconds < 365 * 86400 {
        (seconds / 86400 / 30, " months ago")
    } else {
        (seconds / 86400 / 365, " years ago")
    };
    let mut out = crate::text::decimal_string(amount as u64);
    out.append(unit);
    out
}

} // verus!
