//! Rendering of pages and page listings as display text. Every missing
//! optional field renders as a fixed placeholder; nothing here can fail.
use vstd::prelude::*;
use crate::models::{Page, PageListResponse};
use crate::text::{contains, content_preview, decimal, decimal_string, preview_of};

verus! {

/// The text of an optional field, or `default` when it is absent.
pub open spec fn text_or(o: Option<String>, default: Seq<char>) -> Seq<char> {
    match o {
        Some(s) => s@,
        None => default,
    }
}

/// The space shown for a page.
pub open spec fn space_text(p: Page) -> Seq<char> {
    text_or(p.space_id, "Unknown"@)
}

/// The parent shown for a page.
pub open spec fn parent_text(p: Page) -> Seq<char> {
    text_or(p.parent_id, "None"@)
}

/// The creation time shown for a page.
pub open spec fn created_at_text(p: Page) -> Seq<char> {
    text_or(p.created_at, "Unknown"@)
}

/// The version number shown for a page; zero when it has none.
pub open spec fn version_number(p: Page) -> nat {
    match p.version {
        Some(v) => v.number as nat,
        None => 0,
    }
}

/// The web UI link shown for a page.
pub open spec fn web_ui_text(p: Page) -> Seq<char> {
    match p.links {
        Some(l) => text_or(l.web_ui, "Not available"@),
        None => "Not available"@,
    }
}

/// The content preview shown for a page.
pub open spec fn body_text(p: Page) -> Seq<char> {
    match p.body {
        Some(b) => match b.storage {
            Some(s) => preview_of(s.value@),
            None => "No content"@,
        },
        None => "No content"@,
    }
}

/// The detail block of a page.
pub open spec fn page_text(p: Page) -> Seq<char> {
    "# "@ + p.title@ + " (ID: "@ + p.id@ + ")\n\n**Status:** "@ + p.status@
        + "\n**Space ID:** "@ + space_text(p) + "\n**Parent ID:** "@ + parent_text(p)
        + "\n**Version:** "@ + decimal(version_number(p)) + "\n**Created:** "@
        + created_at_text(p) + "\n**Web UI:** "@ + web_ui_text(p)
        + "\n\n### Content Preview\n"@ + body_text(p) + "\n"@
}

/// The bullet of one page in a listing.
pub open spec fn entry_text(p: Page) -> Seq<char> {
    "- **"@ + p.title@ + "** (ID: "@ + p.id@ + ")\n  Status: "@ + p.status@
        + " | Version: "@ + decimal(version_number(p)) + "\n\n"@
}

/// The bullets of `pages`, in order.
pub open spec fn entries_text(pages: Seq<Page>) -> Seq<char>
    decreases pages.len(),
{
    if pages.len() == 0 {
        Seq::empty()
    } else {
        entries_text(pages.drop_last()) + entry_text(pages.last())
    }
}

/// The listing says that more pages exist.
pub open spec fn has_next(r: PageListResponse) -> bool {
    r.links matches Some(l) && l.next is Some
}

/// The text of a listing of the space `space_id`.
pub open spec fn page_list_text(r: PageListResponse, space_id: Seq<char>) -> Seq<char> {
    if r.results@.len() == 0 {
        "No pages found in space "@ + space_id
    } else {
        "Found "@ + decimal(r.results@.len()) + " page(s) in space "@ + space_id + ":\n\n"@
            + entries_text(r.results@) + if has_next(r) {
            "(More pages available - use pagination to retrieve)\n"@
        } else {
            Seq::empty()
        }
    }
}

/// The confirmation of a created page.
pub open spec fn page_created_text(p: Page) -> Seq<char> {
    "Page created successfully!\n\n**Title:** "@ + p.title@ + "\n**ID:** "@ + p.id@
        + "\n**Space ID:** "@ + space_text(p) + "\n**Status:** "@ + p.status@
        + "\n**Web UI:** "@ + web_ui_text(p) + "\n"@
}

/// The confirmation of an updated page.
pub open spec fn page_updated_text(p: Page) -> Seq<char> {
    "Page updated successfully!\n\n**Title:** "@ + p.title@ + "\n**ID:** "@ + p.id@
        + "\n**New Version:** "@ + decimal(version_number(p)) + "\n**Status:** "@ + p.status@
        + "\n**Web UI:** "@ + web_ui_text(p) + "\n"@
}

/// `needle` is found in `s` at position `at`.
proof fn found_at(s: Seq<char>, needle: Seq<char>, at: int)
    requires
        0 <= at <= s.len() - needle.len(),
        s.subrange(at, at + needle.len()) == needle,
    ensures
        contains(s, needle),
{
}

/// A page whose optional fields are missing still renders, and shows the
/// fixed placeholder for each missing field: "Unknown" for its space and its
/// creation time, "None" for its parent, "Not available" for its web link and
/// "No content" for its content.
pub proof fn missing_fields_render_as_placeholders(p: Page)
    ensures
        p.space_id is None ==> contains(page_text(p), "\n**Space ID:** "@ + "Unknown"@),
        p.parent_id is None ==> contains(page_text(p), "\n**Parent ID:** "@ + "None"@),
        p.created_at is None ==> contains(page_text(p), "\n**Created:** "@ + "Unknown"@),
        (p.links matches Some(l) ==> l.web_ui is None) ==> contains(
            page_text(p),
            "\n**Web UI:** "@ + "Not available"@,
        ),
        (p.body matches Some(b) ==> b.storage is None) ==> contains(
            page_text(p),
            "\n\n### Content Preview\n"@ + "No content"@,
        ),
{
    let t = page_text(p);
    let head = "# "@ + p.title@ + " (ID: "@ + p.id@ + ")\n\n**Status:** "@ + p.status@;
    let space = "\n**Space ID:** "@ + space_text(p);
    let parent = "\n**Parent ID:** "@ + parent_text(p);
    let version = "\n**Version:** "@ + decimal(version_number(p));
    let created = "\n**Created:** "@ + created_at_text(p);
    let web = "\n**Web UI:** "@ + web_ui_text(p);
    let preview = "\n\n### Content Preview\n"@ + body_text(p);
    assert(t =~= head + space + parent + version + created + web + preview + "\n"@);
    let at_parent: int = (head.len() + space.len()) as int;
    let at_created: int = at_parent + parent.len() + version.len();
    let at_web: int = at_created + created.len();
    let at_preview: int = at_web + web.len();
    if p.space_id is None {
        assert(t.subrange(head.len() as int, at_parent) =~= space);
        found_at(t, space, head.len() as int);
    }
    if p.parent_id is None {
        assert(t.subrange(at_parent, at_parent + parent.len()) =~= parent);
        found_at(t, parent, at_parent);
    }
    if p.created_at is None {
        assert(t.subrange(at_created, at_web) =~= created);
        found_at(t, created, at_created);
    }
    if p.links matches Some(l) ==> l.web_ui is None {
        assert(t.subrange(at_web, at_preview) =~= web);
        found_at(t, web, at_web);
    }
    if p.body matches Some(b) ==> b.storage is None {
        assert(t.subrange(at_preview, at_preview + preview.len()) =~= preview);
        found_at(t, preview, at_preview);
    }
}

fn optional_text(o: &Option<String>, default: &str) -> (r: String)
    ensures
        r@ == text_or(*o, default@),
{
    match o {
        Some(s) => s.clone(),
        None => String::from_str(default),
    }
}

fn page_version_number(p: &Page) -> (r: u32)
    ensures
        r as nat == version_number(*p),
{
    match &p.version {
        Some(v) => v.number,
        None => 0,
    }
}

fn page_web_ui(p: &Page) -> (r: String)
    ensures
        r@ == web_ui_text(*p),
{
    match &p.links {
        Some(l) => optional_text(&l.web_ui, "Not available"),
        None => String::from_str("Not available"),
    }
}

fn page_body_preview(p: &Page) -> (r: String)
    ensures
        r@ == body_text(*p),
{
    match &p.body {
        Some(b) => match &b.storage {
            Some(s) => content_preview(s.value.as_str()),
            None => String::from_str("No content"),
        },
        None => String::from_str("No content"),
    }
}

/// The detail block of `page`.
pub fn format_page(page: &Page) -> (r: String)
    ensures
        r@ == page_text(*page),
{
    let mut out = String::from_str("# ");
    out.append(page.title.as_str());
    out.append(" (ID: ");
    out.append(page.id.as_str());
    out.append(")\n\n**Status:** ");
    out.append(page.status.as_str());
    out.append("\n**Space ID:** ");
    out.append(optional_text(&page.space_id, "Unknown").as_str());
    out.append("\n**Parent ID:** ");
    out.append(optional_text(&page.parent_id, "None").as_str());
    out.append("\n**Version:** ");
    out.append(decimal_string(page_version_number(page) as u64).as_str());
    out.append("\n**Created:** ");
    out.append(optional_text(&page.created_at, "Unknown").as_str());
    out.append("\n**Web UI:** ");
    out.append(page_web_ui(page).as_str());
    out.append("\n\n### Content Preview\n");
    out.append(page_body_preview(page).as_str());
    out.append("\n");
    out
}

fn format_entry(p: &Page) -> (r: String)
    ensures
        r@ == entry_text(*p),
{
    let mut out = String::from_str("- **");
    out.append(p.title.as_str());
    out.append("** (ID: ");
    out.append(p.id.as_str());
    out.append(")\n  Status: ");
    out.append(p.status.as_str());
    out.append(" | Version: ");
    out.append(decimal_string(page_version_number(p) as u64).as_str());
    out.append("\n\n");
    out
}

/// The listing of the pages of `response`, found in the space `space_id`.
pub fn format_page_list(response: &PageListResponse, space_id: &str) -> (r: String)
    ensures
        r@ == page_list_text(*response, space_id@),
{
    let n = response.results.len();
    if n == 0 {
        let mut out = String::from_str("No pages found in space ");
        out.append(space_id);
        return out;
    }
    let mut out = String::from_str("Found ");
    out.append(decimal_string(n as u64).as_str());
    out.append(" page(s) in space ");
    out.append(space_id);
    out.append(":\n\n");
    let ghost header = out@;
    let mut i: usize = 0;
    assert(response.results@.take(0) =~= Seq::<Page>::empty());
    while i < n
        invariant
            i <= n,
            n == response.results@.len(),
            out@ == header + entries_text(response.results@.take(i as int)),
        decreases n - i,
    {
        let entry = format_entry(&response.results[i]);
        out.append(entry.as_str());
        assert(response.results@.take(i + 1).drop_last() =~= response.results@.take(i as int));
        i = i + 1;
    }
    assert(response.results@.take(n as int) =~= response.results@);
    let more = match &response.links {
        Some(l) => l.next.is_some(),
        None => false,
    };
    if more {
        out.append("(More pages available - use pagination to retrieve)\n");
    }
    out
}

/// The confirmation that `page` was created.
pub fn format_page_created(page: &Page) -> (r: String)
    ensures
        r@ == page_created_text(*page),
{
    let mut out = String::from_str("Page created successfully!\n\n**Title:** ");
    out.append(page.title.as_str());
    out.append("\n**ID:** ");
    out.append(page.id.as_str());
    out.append("\n**Space ID:** ");
    out.append(optional_text(&page.space_id, "Unknown").as_str());
    out.append("\n**Status:** ");
    out.append(page.status.as_str());
    out.append("\n**Web UI:** ");
    out.append(page_web_ui(page).as_str());
    out.append("\n");
    out
}

/// The confirmation that `page` was updated, with its new version.
pub fn format_page_updated(page: &Page) -> (r: String)
    ensures
        r@ == page_updated_text(*page),
{
    let mut out = String::from_str("Page updated successfully!\n\n**Title:** ");
    out.append(page.title.as_str());
    out.append("\n**ID:** ");
    out.append(page.id.as_str());
    out.append("\n**New Version:** ");
    out.append(decimal_string(page_version_number(page) as u64).as_str());
    out.append("\n**Status:** ");
    out.append(page.status.as_str());
    out.append("\n**Web UI:** ");
    out.append(page_web_ui(page).as_str());
    out.append("\n");
    out
}

} // verus!
