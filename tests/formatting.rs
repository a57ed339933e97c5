use confluence_mcp::formatters::{format_page, format_page_created, format_page_list, format_page_updated};
use confluence_mcp::models::{Body, Page, PageBody, PageLinks, PageListLinks, PageListResponse, Version};
use confluence_mcp::text::{content_preview, decimal_string, trim_end_slashes};

fn bare_page(id: &str, title: &str) -> Page {
    Page {
        id: id.to_string(),
        status: "current".to_string(),
        title: title.to_string(),
        space_id: None,
        parent_id: None,
        author_id: None,
        created_at: None,
        version: None,
        body: None,
        links: None,
    }
}

fn with_version(mut p: Page, number: u32) -> Page {
    p.version = Some(Version { number, message: None, created_at: None });
    p
}

#[test]
fn bare_page_shows_placeholders() {
    let text = format_page(&bare_page("7", "Notes"));
    assert_eq!(
        text,
        "# Notes (ID: 7)\n\n**Status:** current\n**Space ID:** Unknown\n**Parent ID:** None\n**Version:** 0\n**Created:** Unknown\n**Web UI:** Not available\n\n### Content Preview\nNo content\n"
    );
}

#[test]
fn full_page_shows_its_fields() {
    let mut p = with_version(bare_page("9", "Plan"), 12);
    p.space_id = Some("S1".to_string());
    p.parent_id = Some("4".to_string());
    p.created_at = Some("2024-01-02T03:04:05Z".to_string());
    p.links = Some(PageLinks { web_ui: Some("/spaces/S1/pages/9".to_string()) });
    p.body = Some(PageBody {
        storage: Some(Body { representation: "storage".to_string(), value: "<p>hi</p>".to_string() }),
    });
    let text = format_page(&p);
    assert_eq!(
        text,
        "# Plan (ID: 9)\n\n**Status:** current\n**Space ID:** S1\n**Parent ID:** 4\n**Version:** 12\n**Created:** 2024-01-02T03:04:05Z\n**Web UI:** /spaces/S1/pages/9\n\n### Content Preview\n<p>hi</p>\n"
    );
}

#[test]
fn links_without_web_ui_and_body_without_storage_use_placeholders() {
    let mut p = bare_page("1", "T");
    p.links = Some(PageLinks { web_ui: None });
    p.body = Some(PageBody { storage: None });
    let text = format_page(&p);
    assert!(text.contains("**Web UI:** Not available"));
    assert!(text.contains("### Content Preview\nNo content\n"));
}

#[test]
fn preview_keeps_short_content() {
    let s = "a".repeat(200);
    assert_eq!(content_preview(&s), s);
    assert_eq!(content_preview(""), "");
}

#[test]
fn preview_cuts_long_content() {
    let s = "b".repeat(201);
    assert_eq!(content_preview(&s), format!("{}...", "b".repeat(200)));
}

#[test]
fn preview_counts_characters_not_bytes() {
    let s = "é".repeat(150);
    assert_eq!(content_preview(&s), s);
    let long = "ü".repeat(250);
    let out = content_preview(&long);
    assert_eq!(out, format!("{}...", "ü".repeat(200)));
    assert_eq!(out.chars().count(), 203);
}

#[test]
fn decimal_rendering() {
    assert_eq!(decimal_string(0), "0");
    assert_eq!(decimal_string(7), "7");
    assert_eq!(decimal_string(10), "10");
    assert_eq!(decimal_string(4294967295), "4294967295");
    assert_eq!(decimal_string(u64::MAX), "18446744073709551615");
}

#[test]
fn trailing_slashes_are_trimmed() {
    assert_eq!(trim_end_slashes("https://x.example/"), "https://x.example");
    assert_eq!(trim_end_slashes("https://x.example///"), "https://x.example");
    assert_eq!(trim_end_slashes("https://x.example"), "https://x.example");
    assert_eq!(trim_end_slashes("///"), "");
}

#[test]
fn empty_listing() {
    let r = PageListResponse { results: vec![], links: None };
    assert_eq!(format_page_list(&r, "SPACE1"), "No pages found in space SPACE1");
}

#[test]
fn listing_with_pages_and_more() {
    let r = PageListResponse {
        results: vec![with_version(bare_page("1", "One"), 3), bare_page("2", "Two")],
        links: Some(PageListLinks { next: Some("/next".to_string()) }),
    };
    assert_eq!(
        format_page_list(&r, "S"),
        "Found 2 page(s) in space S:\n\n- **One** (ID: 1)\n  Status: current | Version: 3\n\n- **Two** (ID: 2)\n  Status: current | Version: 0\n\n(More pages available - use pagination to retrieve)\n"
    );
}

#[test]
fn listing_without_next_link() {
    let r = PageListResponse {
        results: vec![bare_page("5", "Five")],
        links: Some(PageListLinks { next: None }),
    };
    assert_eq!(
        format_page_list(&r, "S"),
        "Found 1 page(s) in space S:\n\n- **Five** (ID: 5)\n  Status: current | Version: 0\n\n"
    );
}

#[test]
fn created_confirmation() {
    let mut p = bare_page("77", "New");
    p.space_id = Some("S9".to_string());
    assert_eq!(
        format_page_created(&p),
        "Page created successfully!\n\n**Title:** New\n**ID:** 77\n**Space ID:** S9\n**Status:** current\n**Web UI:** Not available\n"
    );
}

#[test]
fn updated_confirmation() {
    let mut p = with_version(bare_page("42", "Doc"), 6);
    p.links = Some(PageLinks { web_ui: Some("/x".to_string()) });
    assert_eq!(
        format_page_updated(&p),
        "Page updated successfully!\n\n**Title:** Doc\n**ID:** 42\n**New Version:** 6\n**Status:** current\n**Web UI:** /x\n"
    );
}
