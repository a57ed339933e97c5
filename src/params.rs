//! The parameters of each tool, and the requests they turn into.
use vstd::prelude::*;
use crate::models::{
    current_status, is_storage_body, CreatePageRequest, UpdatePageRequest,
};

verus! {

/// The number of pages listed when the caller names no limit.
pub const DEFAULT_PAGE_LIMIT: u32 = 25;

/// The largest number of pages that one listing asks for.
pub const MAX_PAGE_LIMIT: u32 = 250;

/// Fetch one page.
#[derive(Debug)]
pub struct GetPageParams {
    pub page_id: String,
}

/// List the pages of a space.
#[derive(Debug)]
pub struct GetPagesBySpaceParams {
    pub space_id: String,
    pub limit: Option<u32>,
}

/// Create a page.
#[derive(Debug)]
pub struct CreatePageParams {
    pub space_id: String,
    pub title: String,
    pub body: String,
    pub parent_id: Option<String>,
}

/// Replace a page's title and content.
#[derive(Debug)]
pub struct UpdatePageParams {
    pub page_id: String,
    pub title: String,
    pub body: String,
    /// The version that the caller last observed.
    pub version_number: u32,
    pub version_message: Option<String>,
}

/// The number of pages asked of the service for a requested `limit`: the
/// default when none is given, and never more than the maximum.
pub open spec fn effective_limit_of(limit: Option<u32>) -> u32 {
    let wanted = match limit {
        Some(l) => l,
        None => DEFAULT_PAGE_LIMIT,
    };
    if wanted < MAX_PAGE_LIMIT {
        wanted
    } else {
        MAX_PAGE_LIMIT
    }
}

impl GetPagesBySpaceParams {
    /// The limit passed on to the client.
    pub fn effective_limit(&self) -> (r: u32)
        ensures
            r == effective_limit_of(self.limit),
    {
        let wanted = match self.limit {
            Some(l) => l,
            None => DEFAULT_PAGE_LIMIT,
        };
        if wanted < MAX_PAGE_LIMIT {
            wanted
        } else {
            MAX_PAGE_LIMIT
        }
    }
}

impl CreatePageParams {
    /// The request that creates the page, under the parent when one is named.
    pub fn into_request(self) -> (r: CreatePageRequest)
        ensures
            r.space_id@ == self.space_id@,
            r.status@ == current_status(),
            r.title@ == self.title@,
            is_storage_body(r.body, self.body@),
            match self.parent_id {
                Some(p) => r.parent_id matches Some(q) && q@ == p@,
                None => r.parent_id is None,
            },
    {
        let request = CreatePageRequest::new(self.space_id, self.title, self.body);
        match self.parent_id {
            Some(p) => request.parent_id(p),
            None => request,
        }
    }
}

impl UpdatePageParams {
    /// The request that replaces the page, asking for the version after the
    /// one observed; none when that version has no successor in `u32`.
    pub fn into_request(self) -> (r: Option<UpdatePageRequest>)
        ensures
            self.version_number == u32::MAX <==> r is None,
            r matches Some(q) ==> {
                &&& q.id@ == self.page_id@
                &&& q.status@ == current_status()
                &&& q.title@ == self.title@
                &&& is_storage_body(q.body, self.body@)
                &&& q.version.number == self.version_number + 1
                &&& match self.version_message {
                    Some(m) => q.version.message matches Some(n) && n@ == m@,
                    None => q.version.message is None,
                }
            },
    {
        if self.version_number == u32::MAX {
            return None;
        }
        let request = UpdatePageRequest::new(
            self.page_id,
            self.title,
            self.body,
            self.version_number,
        );
        match self.version_message {
            Some(m) => Some(request.version_message(m)),
            None => Some(request),
        }
    }
}

} // verus!
