use azfile_pager::{
    AzfilePager, CursorState, Directory, Entries, Entry, EntryMode, EnumerationResults, File,
    ListRequest, PageAction, PageEvent, PagerError, Properties, Timestamp,
};

const SAMPLE: &str = r#"
<?xml version="1.0" encoding="utf-8"?>
<EnumerationResults ServiceEndpoint="https://myaccount.file.core.windows.net/" ShareName="myshare" ShareSnapshot="date-time" DirectoryPath="directory-path">
  <Marker>string-value</Marker>
  <Prefix>string-value</Prefix>
  <MaxResults>100</MaxResults>
  <DirectoryId>directory-id</DirectoryId>
  <Entries>
     <File>
        <Name>Rust By Example.pdf</Name>
        <FileId>13835093239654252544</FileId>
        <Properties>
            <Content-Length>5832374</Content-Length>
            <CreationTime>2023-09-25T12:43:05.8483527Z</CreationTime>
            <LastAccessTime>2023-09-25T12:43:05.8483527Z</LastAccessTime>
            <LastWriteTime>2023-09-25T12:43:08.6337775Z</LastWriteTime>
            <ChangeTime>2023-09-25T12:43:08.6337775Z</ChangeTime>
            <Last-Modified>Mon, 25 Sep 2023 12:43:08 GMT</Last-Modified>
            <Etag>\"0x8DBBDC4F8AC4AEF\"</Etag>
        </Properties>
    </File>
    <Directory>
        <Name>test_list_rich_dir</Name>
        <FileId>12105702186650959872</FileId>
        <Properties>
            <CreationTime>2023-10-15T12:03:40.7194774Z</CreationTime>
            <LastAccessTime>2023-10-15T12:03:40.7194774Z</LastAccessTime>
            <LastWriteTime>2023-10-15T12:03:40.7194774Z</LastWriteTime>
            <ChangeTime>2023-10-15T12:03:40.7194774Z</ChangeTime>
            <Last-Modified>Sun, 15 Oct 2023 12:03:40 GMT</Last-Modified>
            <Etag>\"0x8DBCD76C58C3E96\"</Etag>
        </Properties>
    </Directory>
  </Entries>
  <NextMarker />
</EnumerationResults>
        "#;

fn properties(content_length: Option<u64>, last_modified: &str, etag: &str) -> Properties {
    Properties {
        content_length,
        creation_time: "2023-09-25T12:43:05.8483527Z".to_string(),
        last_access_time: "2023-09-25T12:43:05.8483527Z".to_string(),
        last_write_time: "2023-09-25T12:43:08.6337775Z".to_string(),
        change_time: "2023-09-25T12:43:08.6337775Z".to_string(),
        last_modified: last_modified.to_string(),
        etag: etag.to_string(),
    }
}

fn file(name: &str, content_length: Option<u64>, last_modified: &str, etag: &str) -> File {
    File {
        file_id: "13835093239654252544".to_string(),
        name: name.to_string(),
        properties: properties(content_length, last_modified, etag),
    }
}

fn directory(name: &str, last_modified: &str, etag: &str) -> Directory {
    Directory {
        file_id: "12105702186650959872".to_string(),
        name: name.to_string(),
        properties: properties(None, last_modified, etag),
    }
}

fn page(file: Vec<File>, directory: Vec<Directory>, next_marker: &str) -> EnumerationResults {
    EnumerationResults {
        marker: None,
        prefix: None,
        max_results: None,
        directory_id: None,
        entries: Entries { file, directory },
        next_marker: next_marker.to_string(),
    }
}

/// The records that the sample document describes.
fn sample_page() -> EnumerationResults {
    EnumerationResults {
        marker: Some("string-value".to_string()),
        prefix: Some("string-value".to_string()),
        max_results: Some(100),
        directory_id: Some("directory-id".to_string()),
        entries: Entries {
            file: vec![file(
                "Rust By Example.pdf",
                Some(5832374),
                "Mon, 25 Sep 2023 12:43:08 GMT",
                "\\\"0x8DBBDC4F8AC4AEF\\\"",
            )],
            directory: vec![Directory {
                file_id: "12105702186650959872".to_string(),
                name: "test_list_rich_dir".to_string(),
                properties: Properties {
                    content_length: None,
                    creation_time: "2023-10-15T12:03:40.7194774Z".to_string(),
                    last_access_time: "2023-10-15T12:03:40.7194774Z".to_string(),
                    last_write_time: "2023-10-15T12:03:40.7194774Z".to_string(),
                    change_time: "2023-10-15T12:03:40.7194774Z".to_string(),
                    last_modified: "Sun, 15 Oct 2023 12:03:40 GMT".to_string(),
                    etag: "\\\"0x8DBCD76C58C3E96\\\"".to_string(),
                },
            }],
        },
        next_marker: String::new(),
    }
}

fn request(path: &str, limit: Option<usize>, continuation: &str) -> PageAction {
    PageAction::Issue {
        request: ListRequest {
            path: path.to_string(),
            limit,
            continuation: continuation.to_string(),
        },
    }
}

fn no_page() -> PageAction {
    PageAction::Yield { page: None }
}

fn ok(body: &str) -> PageEvent {
    PageEvent::Response { status: 200, body: body.as_bytes().to_vec() }
}

fn decoded(page: EnumerationResults) -> PageEvent {
    PageEvent::Decoded { outcome: Ok(page) }
}

const STAMP: &str = "Mon, 25 Sep 2023 12:43:08 GMT";

#[test]
fn new_cursor_is_at_the_start() {
    let pager = AzfilePager::new("dir/".to_string(), Some(7));
    assert_eq!(pager.path(), "dir/");
    assert_eq!(pager.limit(), Some(7));
    assert!(!pager.is_done());
    assert_eq!(pager.continuation(), Some(""));
}

#[test]
fn first_poll_asks_for_the_page_at_the_empty_token() {
    let mut pager = AzfilePager::new("/dir/".to_string(), None);
    assert_eq!(pager.next(PageEvent::Poll), request("/dir/", None, ""));
    assert_eq!(pager.continuation(), Some(""));
    let mut limited = AzfilePager::new("dir/".to_string(), Some(100));
    assert_eq!(limited.next(PageEvent::Poll), request("dir/", Some(100), ""));
}

#[test]
fn ok_response_hands_the_body_on_as_text() {
    let mut pager = AzfilePager::new("dir/".to_string(), None);
    assert_eq!(pager.next(ok(SAMPLE)), PageAction::Decode { text: SAMPLE.to_string() });
    assert_eq!(pager.continuation(), Some(""));
    assert_eq!(
        pager.next(ok("caf\u{e9} \u{4e2d}\u{6587}")),
        PageAction::Decode { text: "caf\u{e9} \u{4e2d}\u{6587}".to_string() }
    );
}

#[test]
fn sample_listing_yields_one_file_and_one_directory() {
    let mut pager = AzfilePager::new("/".to_string(), None);
    assert_eq!(pager.next(PageEvent::Poll), request("/", None, ""));
    assert_eq!(pager.next(ok(SAMPLE)), PageAction::Decode { text: SAMPLE.to_string() });
    let action = pager.next(decoded(sample_page()));
    let expected = vec![
        Entry {
            path: "Rust By Example.pdf".to_string(),
            mode: EntryMode::File,
            etag: "\\\"0x8DBBDC4F8AC4AEF\\\"".to_string(),
            last_modified: Timestamp { secs: 1695645788, nanos: 0 },
            content_length: Some(5832374),
        },
        Entry {
            path: "test_list_rich_dir/".to_string(),
            mode: EntryMode::Dir,
            etag: "\\\"0x8DBCD76C58C3E96\\\"".to_string(),
            last_modified: Timestamp { secs: 1697371420, nanos: 0 },
            content_length: None,
        },
    ];
    assert_eq!(action, PageAction::Yield { page: Some(expected) });
    assert!(pager.is_done());
    assert_eq!(pager.next(PageEvent::Poll), no_page());
}

#[test]
fn nothing_to_list_ends_the_listing_on_the_first_fetch() {
    let mut pager = AzfilePager::new("empty/".to_string(), None);
    assert_eq!(pager.next(PageEvent::Poll), request("empty/", None, ""));
    assert_eq!(pager.next(decoded(page(vec![], vec![], ""))), no_page());
    assert!(pager.is_done());
    assert_eq!(pager.continuation(), None);

    let mut missing = AzfilePager::new("missing/".to_string(), None);
    assert_eq!(missing.next(PageEvent::Poll), request("missing/", None, ""));
    assert_eq!(missing.next(PageEvent::Response { status: 404, body: vec![] }), no_page());
    assert!(missing.is_done());
}

#[test]
fn empty_page_with_a_marker_leaves_the_listing_open() {
    let mut pager = AzfilePager::new("dir/".to_string(), None);
    assert_eq!(pager.next(decoded(page(vec![], vec![], "m1"))), no_page());
    assert!(!pager.is_done());
    assert_eq!(pager.continuation(), Some("m1"));
    assert_eq!(pager.next(PageEvent::Poll), request("dir/", None, "m1"));
}

#[test]
fn marker_moves_the_token_from_page_to_page() {
    let mut pager = AzfilePager::new("dir/".to_string(), Some(1));
    assert_eq!(pager.next(PageEvent::Poll), request("dir/", Some(1), ""));
    let first = pager.next(decoded(page(vec![file("a.txt", Some(1), STAMP, "e1")], vec![], "m1")));
    assert!(matches!(first, PageAction::Yield { page: Some(ref entries) } if entries.len() == 1));
    assert!(!pager.is_done());
    assert_eq!(pager.continuation(), Some("m1"));

    assert_eq!(pager.next(PageEvent::Poll), request("dir/", Some(1), "m1"));
    let second = pager.next(decoded(page(vec![file("b.txt", Some(2), STAMP, "e2")], vec![], "m2")));
    assert!(matches!(second, PageAction::Yield { page: Some(ref entries) } if entries[0].path == "dir/b.txt"));
    assert_eq!(pager.continuation(), Some("m2"));
    assert_ne!(pager.continuation(), Some("m1"));

    assert_eq!(pager.next(PageEvent::Poll), request("dir/", Some(1), "m2"));
    let third = pager.next(decoded(page(vec![], vec![directory("c", STAMP, "e3")], "")));
    assert!(matches!(third, PageAction::Yield { page: Some(ref entries) } if entries[0].path == "dir/c/"));
    assert!(pager.is_done());
    assert_eq!(pager.next(PageEvent::Poll), no_page());
}

#[test]
fn not_found_ends_the_listing_at_any_point() {
    let mut pager = AzfilePager::new("dir/".to_string(), None);
    assert!(matches!(
        pager.next(decoded(page(vec![file("a.txt", None, STAMP, "e")], vec![], "m1"))),
        PageAction::Yield { page: Some(_) }
    ));
    assert_eq!(pager.next(PageEvent::Poll), request("dir/", None, "m1"));
    assert_eq!(
        pager.next(PageEvent::Response { status: 404, body: b"gone".to_vec() }),
        no_page()
    );
    assert!(pager.is_done());
    assert_eq!(pager.next(PageEvent::Poll), no_page());
    assert_eq!(pager.next(PageEvent::Poll), no_page());
}

#[test]
fn done_cursor_answers_no_page_to_everything() {
    let mut pager = AzfilePager::new("dir/".to_string(), Some(3));
    assert_eq!(pager.next(PageEvent::Response { status: 404, body: vec![] }), no_page());
    let done = pager.clone();
    for _ in 0..5 {
        assert_eq!(pager.next(PageEvent::Poll), no_page());
        assert_eq!(pager.next(ok(SAMPLE)), no_page());
        assert_eq!(pager.next(PageEvent::Response { status: 500, body: vec![1] }), no_page());
        assert_eq!(pager.next(decoded(sample_page())), no_page());
        assert_eq!(
            pager.next(PageEvent::Decoded { outcome: Err("bad".to_string()) }),
            no_page()
        );
        assert_eq!(pager, done);
        assert!(pager.is_done());
        assert_eq!(pager.path(), "dir/");
        assert_eq!(pager.limit(), Some(3));
    }
}

#[test]
fn other_status_fails_and_keeps_the_cursor() {
    let mut pager = AzfilePager::new("dir/".to_string(), None);
    assert!(matches!(
        pager.next(decoded(page(vec![file("a.txt", None, STAMP, "e")], vec![], "m1"))),
        PageAction::Yield { page: Some(_) }
    ));
    let before = pager.clone();
    for status in [500u16, 403, 204, 201, 301, 0] {
        assert_eq!(
            pager.next(PageEvent::Response { status, body: b"<Error/>".to_vec() }),
            PageAction::Fail {
                error: PagerError::Request { status, body: b"<Error/>".to_vec() }
            }
        );
        assert_eq!(pager, before);
    }
    assert_eq!(pager.next(PageEvent::Poll), request("dir/", None, "m1"));
}

#[test]
fn body_that_is_not_utf8_fails_and_keeps_the_cursor() {
    let mut pager = AzfilePager::new("dir/".to_string(), None);
    let before = pager.clone();
    assert_eq!(
        pager.next(PageEvent::Response { status: 200, body: vec![b'<', 0xff, b'>'] }),
        PageAction::Fail {
            error: PagerError::Decode { reason: "response body is not valid UTF-8".to_string() }
        }
    );
    assert_eq!(pager, before);
}

#[test]
fn rejected_text_fails_with_the_reason_and_keeps_the_cursor() {
    let mut pager = AzfilePager::new("dir/".to_string(), None);
    let before = pager.clone();
    assert_eq!(
        pager.next(PageEvent::Decoded { outcome: Err("missing field `Entries`".to_string()) }),
        PageAction::Fail {
            error: PagerError::Decode { reason: "missing field `Entries`".to_string() }
        }
    );
    assert_eq!(pager, before);
    assert_eq!(pager.next(PageEvent::Poll), request("dir/", None, ""));
}

#[test]
fn unreadable_date_fails_the_whole_page_and_keeps_the_cursor() {
    let mut pager = AzfilePager::new("dir/".to_string(), None);
    let before = pager.clone();
    let bad = page(
        vec![file("a.txt", Some(1), STAMP, "e1"), file("b.txt", Some(2), "yesterday", "e2")],
        vec![directory("c", "tomorrow", "e3")],
        "m1",
    );
    assert_eq!(
        pager.next(decoded(bad)),
        PageAction::Fail { error: PagerError::Timestamp { value: "yesterday".to_string() } }
    );
    assert_eq!(pager, before);
    assert_eq!(pager.continuation(), Some(""));
}

#[test]
fn handlers_agree_with_next() {
    let mut a = AzfilePager::new("dir/".to_string(), Some(2));
    let mut b = a.clone();
    assert_eq!(a.on_poll(), b.next(PageEvent::Poll));
    assert_eq!(a.on_response(200, b"text".to_vec()), b.next(ok("text")));
    assert_eq!(
        a.on_decoded(Ok(page(vec![], vec![directory("d", STAMP, "e")], "m"))),
        b.next(decoded(page(vec![], vec![directory("d", STAMP, "e")], "m")))
    );
    assert_eq!(a, b);
    assert_eq!(a.on_response(404, vec![]), b.next(PageEvent::Response { status: 404, body: vec![] }));
    assert_eq!(a, b);
    assert!(a.is_done());
}

#[test]
fn cursor_state_after_a_page() {
    assert_eq!(CursorState::start(), CursorState::Active { token: String::new() });
    assert_eq!(CursorState::after_page(String::new()), CursorState::Done);
    assert_eq!(
        CursorState::after_page("next".to_string()),
        CursorState::Active { token: "next".to_string() }
    );
}
