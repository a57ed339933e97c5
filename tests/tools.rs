use confluence_mcp::client::{check_response, ClientError};
use confluence_mcp::models::{CreatePageRequest, Page, PageListResponse, UpdatePageRequest, Version};
use confluence_mcp::params::{CreatePageParams, GetPagesBySpaceParams, UpdatePageParams};
use confluence_mcp::tools::{
    create_page_output, get_page_output, get_pages_by_space_output, update_page_output,
    version_exhausted_output,
};

fn page(id: &str, title: &str, version: Option<u32>) -> Page {
    Page {
        id: id.to_string(),
        status: "current".to_string(),
        title: title.to_string(),
        space_id: None,
        parent_id: None,
        author_id: None,
        created_at: None,
        version: version.map(|number| Version { number, message: None, created_at: None }),
        body: None,
        links: None,
    }
}

fn limit_for(limit: Option<u32>) -> u32 {
    GetPagesBySpaceParams { space_id: "S".to_string(), limit }.effective_limit()
}

#[test]
fn limit_defaults_and_clamps() {
    assert_eq!(limit_for(None), 25);
    assert_eq!(limit_for(Some(0)), 0);
    assert_eq!(limit_for(Some(10)), 10);
    assert_eq!(limit_for(Some(249)), 249);
    assert_eq!(limit_for(Some(250)), 250);
    assert_eq!(limit_for(Some(251)), 250);
    assert_eq!(limit_for(Some(u32::MAX)), 250);
}

#[test]
fn create_request_fields() {
    let r = CreatePageRequest::new("S".to_string(), "T".to_string(), "<p>x</p>".to_string());
    assert_eq!(r.status, "current");
    assert_eq!(r.body.representation, "storage");
    assert_eq!(r.body.value, "<p>x</p>");
    assert!(r.parent_id.is_none());
    let r = r.parent_id("P".to_string());
    assert_eq!(r.parent_id.as_deref(), Some("P"));
    assert_eq!(r.space_id, "S");
    assert_eq!(r.title, "T");
}

#[test]
fn create_params_attach_parent_only_when_given() {
    let with = CreatePageParams {
        space_id: "S".to_string(),
        title: "T".to_string(),
        body: "b".to_string(),
        parent_id: Some("9".to_string()),
    }
    .into_request();
    assert_eq!(with.parent_id.as_deref(), Some("9"));
    let without = CreatePageParams {
        space_id: "S".to_string(),
        title: "T".to_string(),
        body: "b".to_string(),
        parent_id: None,
    }
    .into_request();
    assert!(without.parent_id.is_none());
    assert_eq!(without.body.value, "b");
}

#[test]
fn update_request_asks_for_next_version() {
    for n in [0u32, 1, 5, 1000, u32::MAX - 1] {
        let r = UpdatePageRequest::new("1".to_string(), "T".to_string(), "b".to_string(), n);
        assert_eq!(r.version.number, n + 1);
        assert!(r.version.message.is_none());
        assert_eq!(r.status, "current");
    }
    let r = UpdatePageRequest::new("1".to_string(), "T".to_string(), "b".to_string(), 0)
        .version_message("why".to_string());
    assert_eq!(r.version.message.as_deref(), Some("why"));
    assert_eq!(r.version.number, 1);
}

#[test]
fn update_params_with_last_version_are_refused() {
    let p = UpdatePageParams {
        page_id: "1".to_string(),
        title: "T".to_string(),
        body: "b".to_string(),
        version_number: u32::MAX,
        version_message: None,
    };
    assert!(p.into_request().is_none());
    let out = version_exhausted_output(u32::MAX);
    assert!(out.is_error);
    assert_eq!(out.text, "Failed to update page: version 4294967295 has no successor");
}

#[test]
fn failures_become_error_text() {
    let e = check_response(404, "no such page".to_string()).map(|_| page("1", "T", None));
    let out = get_page_output(&e);
    assert!(out.is_error);
    assert_eq!(out.text, "Failed to get page: Confluence API error (404 Not Found): no such page");
    let t: Result<Page, ClientError> = Err(ClientError::Transport { message: "timed out".to_string() });
    let out = create_page_output(&t);
    assert!(out.is_error);
    assert_eq!(out.text, "Failed to create page: timed out");
    let out = update_page_output(&t);
    assert_eq!(out.text, "Failed to update page: timed out");
    let l: Result<PageListResponse, ClientError> =
        Err(ClientError::Parse { message: "expected value".to_string() });
    let out = get_pages_by_space_output(&l, "S");
    assert!(out.is_error);
    assert_eq!(out.text, "Failed to get pages: expected value");
}

#[test]
fn get_page_scenario() {
    let r: Result<Page, ClientError> = Ok(page("123", "Home", Some(3)));
    let out = get_page_output(&r);
    assert!(!out.is_error);
    for part in ["Home", "ID: 123", "Version:** 3", "No content", "Not available"] {
        assert!(out.text.contains(part), "missing {}", part);
    }
}

#[test]
fn empty_space_scenario() {
    let params = GetPagesBySpaceParams { space_id: "SPACE1".to_string(), limit: None };
    assert_eq!(params.effective_limit(), 25);
    let r: Result<PageListResponse, ClientError> = Ok(PageListResponse { results: vec![], links: None });
    let out = get_pages_by_space_output(&r, &params.space_id);
    assert!(!out.is_error);
    assert_eq!(out.text, "No pages found in space SPACE1");
}

#[test]
fn update_scenario() {
    let params = UpdatePageParams {
        page_id: "42".to_string(),
        title: "Doc".to_string(),
        body: "<p>new</p>".to_string(),
        version_number: 5,
        version_message: Some("edit".to_string()),
    };
    let request = params.into_request().unwrap();
    assert_eq!(request.version.number, 6);
    assert_eq!(request.id, "42");
    assert_eq!(request.version.message.as_deref(), Some("edit"));
    let r: Result<Page, ClientError> = Ok(page("42", "Doc", Some(6)));
    let out = update_page_output(&r);
    assert!(!out.is_error);
    assert!(out.text.contains("New Version:** 6"));
}
