use vstd::prelude::*;
use crate::content::model::Ancestor;
use crate::content::model::Content;

verus! {

/// The space a page lives in, named by its key.
#[derive(Debug)]
pub struct Space {
    pub key: String,
}

impl Space {
    pub fn new(key: &str) -> (r: Self)
        ensures
            r.key@ == key@,
    {
        Self { key: key.to_owned() }
    }
}

/// The body of a page: its storage form.
#[derive(Debug)]
pub struct Body {
    pub storage: Storage,
}

impl Body {
    pub fn new(storage: Storage) -> (r: Self)
        ensures
            r.storage == storage,
    {
        Self { storage }
    }
}

/// The storage form of a page body: the raw value and its representation.
#[derive(Debug)]
pub struct Storage {
    pub value: String,
    pub representation: String,
}

impl Storage {
    pub fn new(value: &str, representation: &str) -> (r: Self)
        ensures
            r.value@ == value@,
            r.representation@ == representation@,
    {
        Self { value: value.to_owned(), representation: representation.to_owned() }
    }
}

/// A page version, counted from one.
#[derive(Debug)]
pub struct Version {
    pub number: u64,
}

impl Version {
    pub fn new(number: u64) -> (r: Self)
        ensures
            r.number == number,
    {
        Self { number }
    }
}

/// What a page-creation call sends: the content type, title, space, body,
/// and optionally the ancestors the page is filed under.
#[derive(Debug)]
pub struct CreatePageRequest {
    pub content_type: String,
    pub title: String,
    pub space: Space,
    pub body: Body,
    pub ancestors: Option<Vec<Ancestor>>,
}

impl CreatePageRequest {
    pub fn new(
        content_type: &str,
        title: &str,
        space: Space,
        body: Body,
        ancestors: Option<Vec<Ancestor>>,
    ) -> (r: Self)
        ensures
            r.content_type@ == content_type@,
            r.title@ == title@,
            r.space == space,
            r.body == body,
            r.ancestors == ancestors,
    {
        Self {
            content_type: content_type.to_owned(),
            title: title.to_owned(),
            space,
            body,
            ancestors,
        }
    }
}

impl Clone for CreatePageRequest {
    /// A clone keeps every textual field; of the ancestors it keeps only the
    /// first, and an empty ancestor list becomes none at all.
    fn clone(&self) -> (r: Self)
        ensures
            r.content_type@ == self.content_type@,
            r.title@ == self.title@,
            r.space.key@ == self.space.key@,
            r.body.storage.value@ == self.body.storage.value@,
            r.body.storage.representation@ == self.body.storage.representation@,
            match self.ancestors {
                None => r.ancestors is None,
                Some(v) => if v@.len() == 0 {
                    r.ancestors is None
                } else {
                    r.ancestors matches Some(w) && w@.len() == 1 && w@[0].id@ == v@[0].id@
                },
            },
    {
        Self {
            content_type: self.content_type.clone(),
            title: self.title.clone(),
            space: Space::new(self.space.key.as_str()),
            body: Body::new(
                Storage::new(
                    self.body.storage.value.as_str(),
                    self.body.storage.representation.as_str(),
                ),
            ),
            ancestors: match &self.ancestors {
                Some(v) => {
                    if v.len() == 0 {
                        None
                    } else {
                        Some(vec![Ancestor::new(v[0].id.as_str())])
                    }
                },
                None => None,
            },
        }
    }
}

/// What a page lookup needs: the title and space of the page, expanding its
/// version.
#[derive(Debug)]
pub struct FindPageRequest {
    pub title: String,
    pub space: String,
    pub expand: String,
}

impl FindPageRequest {
    pub fn new(title: &str, space: &str) -> (r: Self)
        ensures
            r.title@ == title@,
            r.space@ == space@,
            r.expand@ == "version"@,
    {
        Self { title: title.to_owned(), space: space.to_owned(), expand: "version".to_owned() }
    }
}

/// What a child-page lookup needs: the parent's content id and the child's
/// title.
#[derive(Debug)]
pub struct FindChildPageRequest {
    pub content_id: String,
    pub title: String,
}

impl FindChildPageRequest {
    pub fn new(content_id: &str, title: &str) -> (r: Self)
        ensures
            r.content_id@ == content_id@,
            r.title@ == title@,
    {
        Self { title: title.to_owned(), content_id: content_id.to_owned() }
    }
}

/// What a page-update call sends: the page's id — used for the URL, not the
/// payload — the fields of a creation call, and the new version.
#[derive(Debug)]
pub struct UpdatePageRequest {
    pub id: String,
    pub content_type: String,
    pub title: String,
    pub space: Space,
    pub body: Body,
    pub ancestors: Option<Vec<Ancestor>>,
    pub version: Version,
}

impl UpdatePageRequest {
    /// The ancestors handed in are not kept: an update never moves the page.
    pub fn new(
        id: &str,
        content_type: &str,
        title: &str,
        space: Space,
        body: Body,
        ancestors: Option<Vec<Ancestor>>,
        version: Version,
    ) -> (r: Self)
        ensures
            r.id@ == id@,
            r.content_type@ == content_type@,
            r.title@ == title@,
            r.space == space,
            r.body == body,
            r.ancestors is None,
            r.version == version,
    {
        let _ = ancestors;
        Self {
            id: id.to_owned(),
            content_type: content_type.to_owned(),
            title: title.to_owned(),
            space,
            body,
            ancestors: None,
            version,
        }
    }
}

/// What an attachment upload needs: the content id it hangs under, the
/// attachment's name, the path of the file to read, and a comment.
#[derive(Debug)]
pub struct UploadAttachmentRequest {
    pub content_id: String,
    pub name: String,
    pub file: String,
    pub comment: String,
}

impl UploadAttachmentRequest {
    pub fn new(content_id: &str, file_name: &str, file: &str, comment: &str) -> (r: Self)
        ensures
            r.content_id@ == content_id@,
            r.name@ == file_name@,
            r.file@ == file@,
            r.comment@ == comment@,
    {
        Self {
            content_id: content_id.to_owned(),
            name: file_name.to_owned(),
            file: file.to_owned(),
            comment: comment.to_owned(),
        }
    }

    /// Turn this upload into an update of the attachment `data` names.
    pub fn to_update_attachment_request(&self, data: AttachmentData) -> (r: UpdateAttachmentRequest)
        ensures
            r.attachment_id@ == data.spec_id(),
            r.content_id@ == self.content_id@,
            r.name@ == self.name@,
            r.file@ == self.file@,
            r.comment@ == self.comment@,
    {
        UpdateAttachmentRequest {
            attachment_id: data.id.clone(),
            content_id: self.content_id.clone(),
            name: self.name.clone(),
            file: self.file.clone(),
            comment: self.comment.clone(),
        }
    }
}


impl Clone for UploadAttachmentRequest {
    /// A clone keeps every field.
    fn clone(&self) -> (r: Self)
        ensures
            r.content_id@ == self.content_id@,
            r.name@ == self.name@,
            r.file@ == self.file@,
            r.comment@ == self.comment@,
    {
        Self {
            content_id: self.content_id.clone(),
            name: self.name.clone(),
            file: self.file.clone(),
            comment: self.comment.clone(),
        }
    }
}

/// What an attachment update needs: an upload's fields plus the id of the
/// attachment to replace.
#[derive(Debug)]
pub struct UpdateAttachmentRequest {
    pub content_id: String,
    pub attachment_id: String,
    pub name: String,
    pub file: String,
    pub comment: String,
}

impl UpdateAttachmentRequest {
    pub fn new(
        content_id: &str,
        attachment_id: &str,
        file_name: &str,
        file: &str,
        comment: &str,
    ) -> (r: Self)
        ensures
            r.content_id@ == content_id@,
            r.attachment_id@ == attachment_id@,
            r.name@ == file_name@,
            r.file@ == file@,
            r.comment@ == comment@,
    {
        Self {
            content_id: content_id.to_owned(),
            attachment_id: attachment_id.to_owned(),
            name: file_name.to_owned(),
            file: file.to_owned(),
            comment: comment.to_owned(),
        }
    }
}


impl Clone for UpdateAttachmentRequest {
    /// A clone keeps every field.
    fn clone(&self) -> (r: Self)
        ensures
            r.content_id@ == self.content_id@,
            r.attachment_id@ == self.attachment_id@,
            r.name@ == self.name@,
            r.file@ == self.file@,
            r.comment@ == self.comment@,
    {
        Self {
            content_id: self.content_id.clone(),
            attachment_id: self.attachment_id.clone(),
            name: self.name.clone(),
            file: self.file.clone(),
            comment: self.comment.clone(),
        }
    }
}

/// The fields of a content entry a caller usually acts on: id, title, and
/// the version number, one when the entry carries none.
#[derive(Debug)]
pub struct ContentData {
    pub id: String,
    pub title: String,
    pub version: u64,
}

impl From<&Content> for ContentData {
    fn from(content: &Content) -> (r: Self) {
        let v: u64 = match &content.version {
            Some(cv) => cv.number,
            None => 1,
        };
        Self { id: content.id.clone(), title: content.title.clone(), version: v }
    }
}

impl vstd::std_specs::convert::FromSpecImpl<&Content> for ContentData {
    open spec fn obeys_from_spec() -> bool {
        true
    }

    open spec fn from_spec(content: &Content) -> Self {
        ContentData {
            id: content.id,
            title: content.title,
            version: match content.version {
                Some(cv) => cv.number,
                None => 1,
            },
        }
    }
}

/// The fields that identify an attachment: its id and title.
#[derive(Debug)]
pub struct AttachmentData {
    id: String,
    title: String,
}

impl AttachmentData {
    /// The attachment's id.
    pub closed spec fn spec_id(&self) -> Seq<char> {
        self.id@
    }

    /// The attachment's title.
    pub closed spec fn spec_title(&self) -> Seq<char> {
        self.title@
    }
}

impl From<&Content> for AttachmentData {
    fn from(content: &Content) -> (r: Self)
        ensures
            r.spec_id() == content.id@,
            r.spec_title() == content.title@,
    {
        Self { id: content.id.clone(), title: content.title.clone() }
    }
}

impl vstd::std_specs::convert::FromSpecImpl<&Content> for AttachmentData {
    open spec fn obeys_from_spec() -> bool {
        true
    }

    closed spec fn from_spec(content: &Content) -> Self {
        AttachmentData { id: content.id, title: content.title }
    }
}

} // verus!
