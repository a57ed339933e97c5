//! The tool layer's outcomes: every result of a client call, success or
//! failure, becomes a text for the invoking agent.
use vstd::prelude::*;
use crate::client::{error_text, ClientError};
use crate::formatters::{
    format_page, format_page_created, format_page_list, format_page_updated, page_created_text,
    page_list_text, page_text, page_updated_text,
};
use crate::models::{Page, PageListResponse};
use crate::text::{decimal, decimal_string};

verus! {

/// What a tool hands back: a text, marked as an error or not.
#[derive(Debug)]
pub struct ToolOutput {
    pub is_error: bool,
    pub text: String,
}

/// The error output of a tool whose call failed with `e`.
pub open spec fn failure_text(action: Seq<char>, e: ClientError) -> Seq<char> {
    "Failed to "@ + action + ": "@ + error_text(e)
}

fn failure(action: &str, e: &ClientError) -> (r: ToolOutput)
    ensures
        r.is_error,
        r.text@ == failure_text(action@, *e),
{
    let mut text = String::from_str("Failed to ");
    text.append(action);
    text.append(": ");
    text.append(e.message().as_str());
    ToolOutput { is_error: true, text }
}

/// The output of the page fetching tool.
pub fn get_page_output(result: &Result<Page, ClientError>) -> (r: ToolOutput)
    ensures
        match result {
            Ok(p) => !r.is_error && r.text@ == page_text(*p),
            Err(e) => r.is_error && r.text@ == failure_text("get page"@, *e),
        },
{
    match result {
        Ok(p) => ToolOutput { is_error: false, text: format_page(p) },
        Err(e) => failure("get page", e),
    }
}

/// The output of the space listing tool, for the space `space_id`.
pub fn get_pages_by_space_output(result: &Result<PageListResponse, ClientError>, space_id: &str) -> (r: ToolOutput)
    ensures
        match result {
            Ok(l) => !r.is_error && r.text@ == page_list_text(*l, space_id@),
            Err(e) => r.is_error && r.text@ == failure_text("get pages"@, *e),
        },
{
    match result {
        Ok(l) => ToolOutput { is_error: false, text: format_page_list(l, space_id) },
        Err(e) => failure("get pages", e),
    }
}

/// The output of the page creating tool.
pub fn create_page_output(result: &Result<Page, ClientError>) -> (r: ToolOutput)
    ensures
        match result {
            Ok(p) => !r.is_error && r.text@ == page_created_text(*p),
            Err(e) => r.is_error && r.text@ == failure_text("create page"@, *e),
        },
{
    match result {
        Ok(p) => ToolOutput { is_error: false, text: format_page_created(p) },
        Err(e) => failure("create page", e),
    }
}

/// The output of the page updating tool.
pub fn update_page_output(result: &Result<Page, ClientError>) -> (r: ToolOutput)
    ensures
        match result {
            Ok(p) => !r.is_error && r.text@ == page_updated_text(*p),
            Err(e) => r.is_error && r.text@ == failure_text("update page"@, *e),
        },
{
    match result {
        Ok(p) => ToolOutput { is_error: false, text: format_page_updated(p) },
        Err(e) => failure("update page", e),
    }
}

/// The error output of the page updating tool when the observed version is
/// the last one that `u32` holds, so that no next version can be asked for.
pub fn version_exhausted_output(version_number: u32) -> (r: ToolOutput)
    ensures
        r.is_error,
        r.text@ == "Failed to update page: version "@ + decimal(version_number as nat)
            + " has no successor"@,
{
    let mut text = String::from_str("Failed to update page: version ");
    text.append(decimal_string(version_number as u64).as_str());
    text.append(" has no successor");
    ToolOutput { is_error: true, text }
}

} // verus!
