use crate::feeds::{Feed, Post};
use html_to_markdown::markdown;
use std::cell::RefCell;
use std::io::Cursor;
use std::rc::Rc;
use vstd::prelude::*;

verus! {

/// The parts of a parsed feed document that the logic reads, as plain values.
pub struct FetchedDocument {
    pub title: Option<String>,
    pub id: String,
    pub entries: Vec<FetchedEntry>,
}

/// What the logic reads of one entry of a parsed document, as plain values.
pub struct FetchedEntry {
    pub id: String,
    pub title: Option<String>,
    /// The entry's content element, if it has one, and the HTML body inside it, if any.
    pub content: Option<Option<String>>,
    /// The `href` of every link of the entry, in document order.
    pub links: Vec<String>,
    pub published: Option<String>,
}

/// What html_to_markdown makes of an HTML fragment, `None` where it fails.
pub uninterp spec fn markdown_of(html: Seq<char>) -> Option<Seq<char>>;

/// Relies on html_to_markdown::convert_html_to_markdown with the structural handlers
/// (chrome removal, paragraphs, headings, lists, tables, styled text, code); the result
/// depends on the HTML alone.
#[verifier::external_body]
fn convert_html(html: &String) -> (r: Option<String>)
    ensures
        r is Some == markdown_of(html@) is Some,
        r is Some ==> r->0@ == markdown_of(html@)->0,
{
    let mut handlers: Vec<html_to_markdown::TagHandler> = vec![
        Rc::new(RefCell::new(markdown::WebpageChromeRemover)),
        Rc::new(RefCell::new(markdown::ParagraphHandler)),
        Rc::new(RefCell::new(markdown::HeadingHandler)),
        Rc::new(RefCell::new(markdown::ListHandler)),
        Rc::new(RefCell::new(markdown::TableHandler::new())),
        Rc::new(RefCell::new(markdown::StyledTextHandler)),
        Rc::new(RefCell::new(markdown::CodeHandler)),
    ];
    html_to_markdown::convert_html_to_markdown(Cursor::new(html.as_bytes()), &mut handlers).ok()
}

pub open spec fn text_or(t: Option<String>, fallback: Seq<char>) -> Seq<char> {
    match t {
        Some(s) => s@,
        None => fallback,
    }
}

/// The readable text of a post, given what the conversion produced.
pub open spec fn content_text(converted: Option<Seq<char>>) -> Seq<char> {
    match converted {
        Some(s) => s,
        None => "No content available"@,
    }
}

/// The HTML body of an entry's content, where the entry has content with a body.
pub open spec fn html_body(content: Option<Option<String>>) -> Option<String> {
    match content {
        Some(Some(h)) => Some(h),
        _ => None,
    }
}

/// What the conversion produces for an entry's content, if it has an HTML body.
pub open spec fn converted_body(content: Option<Option<String>>) -> Option<Seq<char>> {
    match html_body(content) {
        Some(h) => markdown_of(h@),
        None => None,
    }
}

pub open spec fn view_of(s: Option<String>) -> Option<Seq<char>> {
    match s {
        Some(t) => Some(t@),
        None => None,
    }
}

/// The first of an entry's links, if it has any.
pub open spec fn first_link(links: Seq<String>) -> Option<Seq<char>> {
    if links.len() > 0 {
        Some(links[0]@)
    } else {
        None
    }
}

/// `p` is the unread post built from `e`, whose HTML body converted to `converted`
/// (`None` where it has no body or the conversion failed).
pub open spec fn is_post_of(p: Post, e: FetchedEntry, converted: Option<Seq<char>>) -> bool {
    &&& p.id@ == e.id@
    &&& p.title@ == text_or(e.title, "Untitled Post"@)
    &&& p.content@ == content_text(converted)
    &&& view_of(p.link) == first_link(e.links@)
    &&& p.date@ == text_or(e.published, Seq::empty())
    &&& !p.read
}

/// The readable text of a post: the converted body, or a fixed placeholder where there
/// is none.
pub fn content_or_placeholder(converted: Option<String>) -> (r: String)
    ensures
        r@ == content_text(view_of(converted)),
{
    match converted {
        Some(s) => s,
        None => "No content available".to_string(),
    }
}

/// Builds an unread post from an entry and the conversion of its HTML body; the
/// conversion counts only where the entry has such a body. The link is the entry's
/// first one.
pub fn build_post(entry: FetchedEntry, converted: Option<String>) -> (r: Post)
    ensures
        is_post_of(
            r,
            entry,
            if html_body(entry.content) is Some {
                view_of(converted)
            } else {
                None
            },
        ),
{
    let ghost e = entry;
    let FetchedEntry { id, title, content, links, published } = entry;
    let has_body = match &content {
        Some(Some(_)) => true,
        _ => false,
    };
    let text = if has_body {
        content_or_placeholder(converted)
    } else {
        content_or_placeholder(None)
    };
    let title = match title {
        Some(t) => t,
        None => "Untitled Post".to_string(),
    };
    let date = match published {
        Some(d) => d,
        None => String::new(),
    };
    let link = if links.len() > 0 {
        Some(links[0].clone())
    } else {
        None
    };
    Post { id, read: false, title, content: text, link, date }
}

/// Builds an unread post from an entry, converting its HTML body to readable text.
pub fn post_from_entry(entry: FetchedEntry) -> (r: Post)
    ensures
        is_post_of(r, entry, converted_body(entry.content)),
{
    let converted = match &entry.content {
        Some(Some(h)) => convert_html(h),
        _ => None,
    };
    build_post(entry, converted)
}

/// Builds a feed for `url` from a document's title, id and posts.
pub fn build_feed(url: String, title: Option<String>, id: String, posts: Vec<Post>) -> (r: Feed)
    ensures
        r.url@ == url@,
        r.title@ == text_or(title, "Untitled Feed"@),
        r.id@ == id@,
        r.posts@ == posts@,
{
    let title = match title {
        Some(t) => t,
        None => "Untitled Feed".to_string(),
    };
    Feed { title, url, posts, id }
}

/// The feed for `url` built from a parsed document: one unread post per entry, in
/// document order.
pub fn feed_from_document(url: String, doc: FetchedDocument) -> (r: Feed)
    ensures
        r.url@ == url@,
        r.title@ == text_or(doc.title, "Untitled Feed"@),
        r.id@ == doc.id@,
        r.posts@.len() == doc.entries@.len(),
        forall|i: int|
            0 <= i < r.posts@.len() ==> is_post_of(
                #[trigger] r.posts@[i],
                doc.entries@[i],
                converted_body(doc.entries@[i].content),
            ),
{
    let ghost entries = doc.entries@;
    let FetchedDocument { title, id, entries: list } = doc;
    let mut rest = list;
    let mut posts: Vec<Post> = Vec::new();
    let n = rest.len();
    while rest.len() > 0
        invariant
            n == entries.len(),
            posts@.len() + rest@.len() == n,
            rest@ == entries.subrange(posts@.len() as int, n as int),
            forall|i: int|
                0 <= i < posts@.len() ==> is_post_of(
                    #[trigger] posts@[i],
                    entries[i],
                    converted_body(entries[i].content),
                ),
        decreases rest@.len(),
    {
        let entry = rest.remove(0);
        posts.push(post_from_entry(entry));
        assert(rest@ =~= entries.subrange(posts@.len() as int, n as int));
    }
    build_feed(url, title, id, posts)
}

} // verus!
