//! The page that lists a served directory.

use vstd::prelude::*;
use vstd::string::StringExecFns;

verus! {

/// The state shared by the request handlers: the directory being served.
pub struct AppState {
    pub path: String,
}

/// One entry of a directory: its path relative to the served directory,
/// and the name shown for it.
pub struct ListingEntry {
    pub path: String,
    pub name: String,
}

/// `s` as a quoted string literal, with the characters that need it escaped.
pub uninterp spec fn debug_quoted(s: Seq<char>) -> Seq<char>;

/// Relies on `<str as Debug>::fmt`: the quoted, escaped form depends on the
/// characters alone.
#[verifier::external_body]
fn quote(s: &str) -> (r: String)
    ensures
        r@ == debug_quoted(s@),
{
    format!("{:?}", s)
}

/// The list item that links to one entry.
pub open spec fn entry_html(e: ListingEntry) -> Seq<char> {
    "<li><a href="@ + debug_quoted(e.path@) + ">"@ + e.name@ + "</a></li>"@
}

pub open spec fn entries_html(entries: Seq<ListingEntry>) -> Seq<char>
    decreases entries.len(),
{
    if entries.len() == 0 {
        Seq::empty()
    } else {
        entries_html(entries.drop_last()) + entry_html(entries.last())
    }
}

/// The HTML page listing the entries, in order.
pub open spec fn listing_html(entries: Seq<ListingEntry>) -> Seq<char> {
    "<html><body><ul>"@ + entries_html(entries) + "</ul></body></html>"@
}

/// Renders the page that lists a directory's entries, each linked by its
/// path.
pub fn render_listing(entries: &Vec<ListingEntry>) -> (r: String)
    ensures
        r@ == listing_html(entries@),
{
    let mut content = String::new();
    content.append("<html><body><ul>");
    let mut i: usize = 0;
    while i < entries.len()
        invariant
            i <= entries@.len(),
            content@ == "<html><body><ul>"@ + entries_html(entries@.subrange(0, i as int)),
        decreases entries@.len() - i,
    {
        let entry = &entries[i];
        let href = quote(entry.path.as_str());
        content.append("<li><a href=");
        content.append(href.as_str());
        content.append(">");
        content.append(entry.name.as_str());
        content.append("</a></li>");
        proof {
            let prefix = entries@.subrange(0, i as int);
            let next = entries@.subrange(0, i + 1);
            assert(next.drop_last() =~= prefix);
            assert(next.last() == entries@[i as int]);
        }
        i = i + 1;
    }
    assert(entries@.subrange(0, entries@.len() as int) =~= entries@);
    content.append("</ul></body></html>");
    content
}

} // verus!
