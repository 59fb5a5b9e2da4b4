use confluence::content::model::Ancestor;
use confluence::content::model::Content;
use confluence::content::model::ContentExpandable;
use confluence::content::model::ContentLinks;
use confluence::content::model::ContentVersion;
use confluence::content::model::ProfilePicture;
use confluence::content::model::SelfLink;
use confluence::content::model::User;
use confluence::content::model::UserExpandable;
use confluence::model::AttachmentData;
use confluence::model::Body;
use confluence::model::ContentData;
use confluence::model::CreatePageRequest;
use confluence::model::FindChildPageRequest;
use confluence::model::FindPageRequest;
use confluence::model::Space;
use confluence::model::Storage;
use confluence::model::UpdatePageRequest;
use confluence::model::UploadAttachmentRequest;
use confluence::model::Version;

fn sample_content(version: Option<u64>) -> Content {
    Content {
        id: "205618124".to_string(),
        content_type: "page".to_string(),
        status: "current".to_string(),
        title: "Hello World".to_string(),
        version: version.map(|number| ContentVersion {
            by: User {
                user_type: "known".to_string(),
                username: "john.doe".to_string(),
                user_key: "k".to_string(),
                profile_picture: ProfilePicture {
                    path: "/p.png".to_string(),
                    width: 48,
                    height: 48,
                    is_default: true,
                },
                display_name: "John Doe".to_string(),
                links: SelfLink { target_url: "u".to_string() },
                expandable: UserExpandable { status: "s".to_string() },
            },
            when: "2020-01-01".to_string(),
            message: None,
            number,
            minor_edit: false,
            hidden: false,
        }),
        extensions: None,
        links: ContentLinks {
            webui: None,
            thumbnail: None,
            download: None,
            edit: None,
            tinyui: None,
            target_url: "u".to_string(),
        },
        expandable: ContentExpandable {
            container: None,
            metadata: None,
            operations: None,
            children: None,
            restrictions: None,
            history: None,
            ancestors: None,
            body: None,
            version: None,
            descendants: None,
            space: None,
        },
        metadata: None,
    }
}

#[test]
fn create_page_request_keeps_its_fields() {
    let r = CreatePageRequest::new(
        "page",
        "Hello World",
        Space::new("~john.doe@example.com"),
        Body::new(Storage::new("no text", "storage")),
        None,
    );
    assert_eq!(r.content_type, "page");
    assert_eq!(r.title, "Hello World");
    assert_eq!(r.space.key, "~john.doe@example.com");
    assert_eq!(r.body.storage.value, "no text");
    assert_eq!(r.body.storage.representation, "storage");
    assert!(r.ancestors.is_none());
}

#[test]
fn create_page_request_clone_keeps_the_first_ancestor() {
    let r = CreatePageRequest::new(
        "page",
        "Hello Foo",
        Space::new("~john.doe@example.com"),
        Body::new(Storage::new("no text", "storage")),
        Some(vec![Ancestor::new("205618124"), Ancestor::new("205618125")]),
    );
    let c = r.clone();
    assert_eq!(c.title, "Hello Foo");
    let ancestors = c.ancestors.unwrap();
    assert_eq!(ancestors.len(), 1);
    assert_eq!(ancestors[0].id, "205618124");
}

#[test]
fn create_page_request_clone_drops_an_empty_ancestor_list() {
    let r = CreatePageRequest::new(
        "page",
        "Hello Foo",
        Space::new("~john.doe@example.com"),
        Body::new(Storage::new("no text", "storage")),
        Some(Vec::new()),
    );
    assert!(r.clone().ancestors.is_none());
}

#[test]
fn find_page_request_always_expands_the_version() {
    let r = FindPageRequest::new("My+Fancy+Page+Title", "ICF");
    assert_eq!(r.title, "My+Fancy+Page+Title");
    assert_eq!(r.space, "ICF");
    assert_eq!(r.expand, "version");
}

#[test]
fn find_child_page_request_keeps_its_fields() {
    let r = FindChildPageRequest::new("205618124", "Hello World");
    assert_eq!(r.content_id, "205618124");
    assert_eq!(r.title, "Hello World");
}

#[test]
fn update_page_request_never_keeps_ancestors() {
    let r = UpdatePageRequest::new(
        "205618124",
        "page",
        "Once Upon",
        Space::new("~john.doe@example.com"),
        Body::new(Storage::new("no text", "storage")),
        Some(vec![Ancestor::new("205618125")]),
        Version::new(2),
    );
    assert_eq!(r.id, "205618124");
    assert!(r.ancestors.is_none());
    assert_eq!(r.version.number, 2);
}

#[test]
fn content_data_takes_the_version_number() {
    let d = ContentData::from(&sample_content(Some(7)));
    assert_eq!(d.id, "205618124");
    assert_eq!(d.title, "Hello World");
    assert_eq!(d.version, 7);
}

#[test]
fn content_data_defaults_to_version_one() {
    let d = ContentData::from(&sample_content(None));
    assert_eq!(d.version, 1);
}

#[test]
fn upload_turns_into_an_update() {
    let upload = UploadAttachmentRequest::new(
        "205618124",
        "sequence.png",
        "/absolute/path/attachment/sequence.png",
        "",
    );
    let data = AttachmentData::from(&sample_content(Some(1)));
    let update = upload.to_update_attachment_request(data);
    assert_eq!(update.attachment_id, "205618124");
    assert_eq!(update.content_id, "205618124");
    assert_eq!(update.name, "sequence.png");
    assert_eq!(update.file, "/absolute/path/attachment/sequence.png");
    assert_eq!(update.comment, "");
}
