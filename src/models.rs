//! Records exchanged with the remote page service.
use vstd::prelude::*;

verus! {

/// A page as the remote service returns it.
#[derive(Debug)]
pub struct Page {
    pub id: String,
    pub status: String,
    pub title: String,
    pub space_id: Option<String>,
    pub parent_id: Option<String>,
    pub author_id: Option<String>,
    pub created_at: Option<String>,
    pub version: Option<Version>,
    pub body: Option<PageBody>,
    pub links: Option<PageLinks>,
}

/// Navigational links of a page.
#[derive(Debug)]
pub struct PageLinks {
    pub web_ui: Option<String>,
}

/// A page version; the service increments `number` on every update.
#[derive(Debug)]
pub struct Version {
    pub number: u32,
    pub message: Option<String>,
    pub created_at: Option<String>,
}

/// Page content in a named representation.
#[derive(Debug)]
pub struct Body {
    pub representation: String,
    pub value: String,
}

/// The representation-keyed body container of a page.
#[derive(Debug)]
pub struct PageBody {
    pub storage: Option<Body>,
}

/// Pagination links of a page listing; `next` is present when more pages exist.
#[derive(Debug)]
pub struct PageListLinks {
    pub next: Option<String>,
}

/// One page of results of a space listing.
#[derive(Debug)]
pub struct PageListResponse {
    pub results: Vec<Page>,
    pub links: Option<PageListLinks>,
}

/// The payload that creates a page.
#[derive(Debug)]
pub struct CreatePageRequest {
    pub space_id: String,
    pub status: String,
    pub title: String,
    pub parent_id: Option<String>,
    pub body: Body,
}

/// The payload that replaces a page's title and content.
#[derive(Debug)]
pub struct UpdatePageRequest {
    pub id: String,
    pub status: String,
    pub title: String,
    pub body: Body,
    pub version: VersionUpdate,
}

/// The version that an update asks the service to record.
#[derive(Debug)]
pub struct VersionUpdate {
    pub number: u32,
    pub message: Option<String>,
}

/// The lifecycle status that every written page carries.
pub open spec fn current_status() -> Seq<char> {
    "current"@
}

/// The representation of page content: the service's HTML-like markup.
pub open spec fn storage_representation() -> Seq<char> {
    "storage"@
}

/// `body` holds `value` in the storage representation.
pub open spec fn is_storage_body(body: Body, value: Seq<char>) -> bool {
    &&& body.representation@ == storage_representation()
    &&& body.value@ == value
}

fn storage_body(value: String) -> (r: Body)
    ensures
        is_storage_body(r, value@),
{
    Body { representation: String::from_str("storage"), value }
}

fn current_status_string() -> (r: String)
    ensures
        r@ == current_status(),
{
    String::from_str("current")
}

impl CreatePageRequest {
    /// A request for a current page with the given content and no parent.
    pub fn new(space_id: String, title: String, body_value: String) -> (r: Self)
        ensures
            r.space_id@ == space_id@,
            r.status@ == current_status(),
            r.title@ == title@,
            r.parent_id is None,
            is_storage_body(r.body, body_value@),
    {
        CreatePageRequest {
            space_id,
            status: current_status_string(),
            title,
            parent_id: None,
            body: storage_body(body_value),
        }
    }

    /// The same request, placed under the page `parent_id`.
    pub fn parent_id(self, parent_id: String) -> (r: Self)
        ensures
            r.space_id == self.space_id,
            r.status == self.status,
            r.title == self.title,
            r.body == self.body,
            r.parent_id matches Some(p) && p@ == parent_id@,
    {
        let mut r = self;
        r.parent_id = Some(parent_id);
        r
    }
}

impl UpdatePageRequest {
    /// A request that replaces page `id`, whose last observed version is
    /// `version_number`; it asks for the next version.
    pub fn new(id: String, title: String, body_value: String, version_number: u32) -> (r: Self)
        requires
            version_number < u32::MAX,
        ensures
            r.id@ == id@,
            r.status@ == current_status(),
            r.title@ == title@,
            is_storage_body(r.body, body_value@),
            r.version.number == version_number + 1,
            r.version.message is None,
    {
        UpdatePageRequest {
            id,
            status: current_status_string(),
            title,
            body: storage_body(body_value),
            version: VersionUpdate { number: version_number + 1, message: None },
        }
    }

    /// The same request, with a message that describes the new version.
    pub fn version_message(self, message: String) -> (r: Self)
        ensures
            r.id == self.id,
            r.status == self.status,
            r.title == self.title,
            r.body == self.body,
            r.version.number == self.version.number,
            r.version.message matches Some(m) && m@ == message@,
    {
        let mut r = self;
        r.version.message = Some(message);
        r
    }
}

} // verus!
