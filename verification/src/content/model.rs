use vstd::prelude::*;

verus! {

/// The links block of a listing response.
#[derive(Debug)]
pub struct Links {
    pub base: String,
    pub context: String,
    pub target_url: String,
}

/// A links block holding only the entity's own URL.
#[derive(Debug)]
pub struct SelfLink {
    pub target_url: String,
}

/// The expandable block of a child-content response.
#[derive(Debug)]
pub struct Expandable {
    pub attachment: Option<String>,
    pub comment: Option<String>,
    pub page: Option<String>,
}

/// Extra attributes an attachment entry carries.
#[derive(Debug)]
pub struct Extensions {
    pub position: Option<String>,
    pub media_type: Option<String>,
    pub file_size: Option<u64>,
    pub comment: Option<String>,
}

/// The links block of a content entry.
#[derive(Debug)]
pub struct ContentLinks {
    pub webui: Option<String>,
    pub thumbnail: Option<String>,
    pub download: Option<String>,
    pub edit: Option<String>,
    pub tinyui: Option<String>,
    pub target_url: String,
}

/// A user's avatar.
#[derive(Debug)]
pub struct ProfilePicture {
    pub path: String,
    pub width: u64,
    pub height: u64,
    pub is_default: bool,
}

/// The expandable block of a user entry.
#[derive(Debug)]
pub struct UserExpandable {
    pub status: String,
}

/// A user as content responses carry it.
#[derive(Debug)]
pub struct User {
    pub user_type: String,
    pub username: String,
    pub user_key: String,
    pub profile_picture: ProfilePicture,
    pub display_name: String,
    pub links: SelfLink,
    pub expandable: UserExpandable,
}

/// The expandable block of a version entry.
#[derive(Debug)]
pub struct ContentVersionExpandable {
    pub content: String,
}

/// One version of a content entry.
#[derive(Debug)]
pub struct ContentVersion {
    pub by: User,
    pub when: String,
    pub message: Option<String>,
    pub number: u64,
    pub minor_edit: bool,
    pub hidden: bool,
}

/// The expandable block of a content entry.
#[derive(Debug)]
pub struct ContentExpandable {
    pub container: Option<String>,
    pub metadata: Option<String>,
    pub operations: Option<String>,
    pub children: Option<String>,
    pub restrictions: Option<String>,
    pub history: Option<String>,
    pub ancestors: Option<String>,
    pub body: Option<String>,
    pub version: Option<String>,
    pub descendants: Option<String>,
    pub space: Option<String>,
}

/// The links block of a paged listing.
#[derive(Debug)]
pub struct ResultsLinks {
    pub target_url: String,
}

/// A paged listing of entries, with the raw start/limit/size fields.
#[derive(Debug)]
pub struct Results<T> {
    pub results: Vec<T>,
    pub start: u64,
    pub limit: u64,
    pub size: u64,
    pub links: ResultsLinks,
}

/// One label on a content entry.
#[derive(Debug)]
pub struct Label {
    pub prefix: String,
    pub name: String,
    pub id: String,
}

/// The metadata block of a content entry.
#[derive(Debug)]
pub struct Metadata {
    pub media_type: String,
    pub labels: Results<Label>,
}

/// One content entry of a listing response.
#[derive(Debug)]
pub struct Content {
    pub id: String,
    pub content_type: String,
    pub status: String,
    pub title: String,
    pub version: Option<ContentVersion>,
    pub extensions: Option<Extensions>,
    pub links: ContentLinks,
    pub expandable: ContentExpandable,
    pub metadata: Option<Metadata>,
}

/// The response of the child-content endpoint.
#[derive(Debug)]
pub struct ChildContentServiceResponse {
    pub links: Links,
    pub expandable: ContentExpandable,
    pub page: Results<Content>,
}

/// The expandable block of a content-service response.
#[derive(Debug)]
pub struct ContentServiceExpandable {
    pub children: Option<String>,
    pub descendants: Option<String>,
    pub metadata: Option<String>,
    pub operations: Option<String>,
    pub restrictions: Option<String>,
}

/// The links block of a content-service response.
#[derive(Debug)]
pub struct ContentServiceLinks {
    pub base: String,
    pub collection: String,
    pub context: String,
    pub edit: String,
    pub target_url: String,
    pub tinyui: String,
    pub webui: String,
}

/// One ancestor of a page, named by its content id.
#[derive(Debug)]
pub struct Ancestor {
    pub id: String,
}

impl Ancestor {
    pub fn new(id: &str) -> (r: Self)
        ensures
            r.id@ == id@,
    {
        Self { id: id.to_owned() }
    }
}

/// The expandable block of a response body.
#[derive(Debug)]
pub struct ContentServiceBodyExpandable {
    pub anonymous_export_view: Option<String>,
    pub editor: Option<String>,
    pub export_view: Option<String>,
    pub styled_view: Option<String>,
    pub view: Option<String>,
}

/// The expandable block of a body's storage form.
#[derive(Debug)]
pub struct ContentServiceBodyStorageExpandable {
    pub content: Option<String>,
}

/// The storage form of a response body.
#[derive(Debug)]
pub struct ContentServiceBodyStorage {
    pub expandable: ContentServiceBodyStorageExpandable,
    pub representation: String,
    pub value: String,
}

/// The expandable block of a body's container.
#[derive(Debug)]
pub struct ContentServiceBodyContainerExpandable {
    pub description: Option<String>,
    pub homepage: Option<String>,
    pub icon: Option<String>,
    pub metadata: Option<String>,
}

/// The links block of a body's container.
#[derive(Debug)]
pub struct ContentServiceBodyContainerLinks {
    pub target_url: String,
    pub webui: String,
}

/// The expandable block of a content history.
#[derive(Debug)]
pub struct ContentHistoryExpandable {
    pub contributors: String,
    pub last_updated: String,
    pub next_version: String,
    pub previous_version: String,
}

/// The expandable block of a space entry.
#[derive(Debug)]
pub struct ContentSpaceExpandable {
    pub description: String,
    pub homepage: String,
    pub icon: String,
    pub metadata: String,
}

/// The links block of a space entry.
#[derive(Debug)]
pub struct ContentSpaceLinks {
    pub target_url: String,
    pub webui: String,
}

/// A space as content-service responses carry it.
#[derive(Debug)]
pub struct Space {
    pub expandable: ContentSpaceExpandable,
    pub links: ContentSpaceLinks,
    pub id: u64,
    pub key: String,
    pub name: String,
    pub space_type: String,
}

/// The history block of a content-service response.
#[derive(Debug)]
pub struct ContentHistory {
    pub expandable: ContentHistoryExpandable,
    pub links: SelfLink,
    pub created_by: User,
    pub created_date: String,
    pub latest: bool,
}

/// The container block of a response body.
#[derive(Debug)]
pub struct ContentServiceBodyContainer {
    pub expandable: ContentServiceBodyContainerExpandable,
    pub links: ContentServiceBodyContainerLinks,
    pub id: u64,
    pub key: String,
    pub name: String,
    pub container_type: String,
}

/// The body block of a content-service response.
#[derive(Debug)]
pub struct ContentServiceBody {
    pub expandable: ContentServiceBodyExpandable,
    pub storage: ContentServiceBodyStorage,
}

/// The response of the content service for one page.
#[derive(Debug)]
pub struct ContentServiceResponse {
    pub links: ContentServiceLinks,
    pub expandable: ContentServiceExpandable,
    pub ancestors: Vec<Ancestor>,
    pub body: ContentServiceBody,
    pub container: ContentServiceBodyContainer,
    pub extensions: Extensions,
    pub history: ContentHistory,
    pub id: String,
    pub space: Space,
    pub status: String,
    pub title: String,
    pub content_type: String,
    pub version: ContentVersion,
}

} // verus!
