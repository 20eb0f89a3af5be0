use pagefind_php::exception::ErrorKind;
use pagefind_php::file::EngineFile;
use pagefind_php::indexer::{EngineCall, PhpPagefindIndex};
use pagefind_php::service_config::PhpPagefindServiceConfig;

fn ready_handle() -> PhpPagefindIndex<()> {
    let config = PhpPagefindServiceConfig::__construct(false, false, Some("en".to_string()));
    PhpPagefindIndex::__construct(&config, Ok(())).unwrap()
}

const PAGE: &str = "<html><body><h1>Hello</h1><p>World</p></body></html>";

#[test]
fn add_write_and_read_one_page() {
    let config = PhpPagefindServiceConfig::__construct(false, false, Some("en".to_string()));
    let options = config.engine_options();
    assert!(!options.keep_index_url);
    assert!(!options.verbose);
    assert_eq!(options.force_language, "en");
    let mut index: PhpPagefindIndex<()> = PhpPagefindIndex::__construct(&config, Ok(())).unwrap();

    let call = EngineCall::add_html_file(
        "docs/a.html".to_string(),
        "/a/".to_string(),
        PAGE.to_string(),
    );
    match call {
        EngineCall::AddHtmlFile { source_path, url, content } => {
            assert_eq!(source_path, Some("docs/a.html".to_string()));
            assert_eq!(url, Some("/a/".to_string()));
            assert_eq!(content, PAGE);
        },
        other => panic!("unexpected call {:?}", other),
    }
    let added = index
        .add_html_file("docs/a.html".to_string(), Ok("IndexedFile { page_word_count: 2 }".to_string()))
        .unwrap();
    assert!(added.is_success());
    assert!(added.get_message().contains("docs/a.html"));
    assert_eq!(added.get_message(), "Successfully added HTML file: docs/a.html");
    assert_eq!(added.get_metadata(), Some("IndexedFile { page_word_count: 2 }".to_string()));

    match EngineCall::write_files("/tmp/out".to_string()) {
        EngineCall::WriteFiles { output_directory } => {
            assert_eq!(output_directory, Some("/tmp/out".to_string()));
        },
        other => panic!("unexpected call {:?}", other),
    }
    let written = index.write_files("/tmp/out".to_string(), Ok("\"/tmp/out\"".to_string())).unwrap();
    assert!(written.is_success());
    assert_eq!(written.get_message(), "Successfully wrote files to: /tmp/out");
    assert_eq!(written.get_metadata(), Some("\"/tmp/out\"".to_string()));

    let files = index
        .get_files(Ok(vec![
            EngineFile { filename: b"pagefind.js".to_vec(), contents: b"export{}".to_vec() },
            EngineFile { filename: b"index/en_1a2b.pf_index".to_vec(), contents: vec![31, 139, 8] },
        ]))
        .unwrap();
    assert!(!files.is_empty());
    assert!(files.iter().any(|file| file.get_filename().ends_with(".pf_index")));
}

#[test]
fn success_message_holds_the_source_path() {
    let mut index = ready_handle();
    for path in ["a.html", "deep/er/path/index.html", "with space.html", "", "\u{e9}t\u{e9}.html"] {
        let response = index.add_html_file(path.to_string(), Ok("s".to_string())).unwrap();
        assert!(response.is_success());
        assert!(response.get_message().contains(path));
        assert_eq!(response.get_message(), format!("Successfully added HTML file: {}", path));
    }
}

#[test]
fn same_url_twice_is_not_rejected_here() {
    let mut index = ready_handle();
    let first = EngineCall::add_html_file("a.html".to_string(), "/same/".to_string(), "<p>1</p>".to_string());
    let second = EngineCall::add_html_file("b.html".to_string(), "/same/".to_string(), "<p>2</p>".to_string());
    for call in [first, second] {
        match call {
            EngineCall::AddHtmlFile { url, .. } => assert_eq!(url, Some("/same/".to_string())),
            other => panic!("unexpected call {:?}", other),
        }
    }
    let one = index.add_html_file("a.html".to_string(), Ok("one".to_string()));
    let two = index.add_html_file("b.html".to_string(), Ok("two".to_string()));
    assert!(one.unwrap().is_success());
    let two = two.unwrap();
    assert!(two.is_success());
    assert_eq!(two.get_metadata(), Some("two".to_string()));
}

#[test]
fn add_html_file_failure_is_an_indexing_error() {
    let mut index = ready_handle();
    let failure = index
        .add_html_file("bad.html".to_string(), Err("could not parse".to_string()))
        .unwrap_err();
    assert_eq!(failure.kind(), ErrorKind::Indexing);
    assert_eq!(failure.get_message(), "Error adding HTML file: could not parse");
}

#[test]
fn directory_call_keeps_path_and_pattern() {
    match EngineCall::add_directory("site".to_string(), Some("**/*.{html}".to_string())) {
        EngineCall::AddDirectory { path, pattern } => {
            assert_eq!(path, "site");
            assert_eq!(pattern, Some("**/*.{html}".to_string()));
        },
        other => panic!("unexpected call {:?}", other),
    }
    match EngineCall::add_directory("site".to_string(), None) {
        EngineCall::AddDirectory { path, pattern } => {
            assert_eq!(path, "site");
            assert_eq!(pattern, None);
        },
        other => panic!("unexpected call {:?}", other),
    }
}

#[test]
fn directory_without_matches_is_a_success() {
    let mut index = ready_handle();
    let response = index.add_directory("empty".to_string(), Ok("0".to_string())).unwrap();
    assert!(response.is_success());
    assert_eq!(response.get_message(), "Successfully added directory: empty");
    assert_eq!(response.get_metadata(), Some("0".to_string()));
}

#[test]
fn missing_directory_is_an_indexing_error() {
    let mut index = ready_handle();
    let failure = index
        .add_directory("/no/such/dir".to_string(), Err("No such file or directory (os error 2)".to_string()))
        .unwrap_err();
    assert_eq!(failure.kind(), ErrorKind::Indexing);
    assert_eq!(
        failure.get_message(),
        "Error adding directory: No such file or directory (os error 2)"
    );
}

#[test]
fn write_files_reports_success_and_failure() {
    let mut index = ready_handle();
    let response = index.write_files("out".to_string(), Ok("\"out\"".to_string())).unwrap();
    assert!(response.is_success());
    assert_eq!(response.get_message(), "Successfully wrote files to: out");

    let failure = index
        .write_files("/read-only".to_string(), Err("Permission denied (os error 13)".to_string()))
        .unwrap_err();
    assert_eq!(failure.kind(), ErrorKind::Write);
    assert_eq!(failure.get_message(), "Error writing files: Permission denied (os error 13)");
}

#[test]
fn a_failure_leaves_the_handle_usable() {
    let mut index = ready_handle();
    assert!(index.add_html_file("a".to_string(), Err("x".to_string())).is_err());
    assert!(index.add_directory("d".to_string(), Err("x".to_string())).is_err());
    assert!(index.write_files("o".to_string(), Err("x".to_string())).is_err());
    assert!(index.get_files(Err("x".to_string())).is_err());
    assert!(index.get_files(Ok(vec![EngineFile { filename: vec![0xff], contents: Vec::new() }])).is_err());
    assert!(index.add_html_file("a".to_string(), Ok("s".to_string())).is_ok());
    assert!(index.add_directory("d".to_string(), Ok("s".to_string())).is_ok());
    assert!(index.write_files("o".to_string(), Ok("s".to_string())).is_ok());
    assert!(index.get_files(Ok(Vec::new())).is_ok());
}

#[test]
fn files_keep_order_names_and_contents() {
    let mut index = ready_handle();
    let produced = vec![
        EngineFile { filename: b"pagefind.js".to_vec(), contents: vec![1, 2, 3, 4] },
        EngineFile { filename: b"fragment/en_0.pf_fragment".to_vec(), contents: Vec::new() },
        EngineFile { filename: "r\u{e9}sum\u{e9}.pf_meta".as_bytes().to_vec(), contents: vec![0, 255, 128] },
    ];
    let files = index.get_files(Ok(produced)).unwrap();
    assert_eq!(files.len(), 3);
    assert_eq!(files[0].get_filename(), "pagefind.js");
    assert_eq!(files[0].get_contents(), vec![1, 2, 3, 4]);
    assert_eq!(files[0].get_contents().len(), 4);
    assert_eq!(files[1].get_filename(), "fragment/en_0.pf_fragment");
    assert_eq!(files[1].get_contents().len(), 0);
    assert_eq!(files[2].get_filename(), "r\u{e9}sum\u{e9}.pf_meta");
    assert_eq!(files[2].get_contents(), vec![0, 255, 128]);
}

#[test]
fn no_files_is_an_empty_sequence() {
    let mut index = ready_handle();
    let files = index.get_files(Ok(Vec::new())).unwrap();
    assert!(files.is_empty());
}

#[test]
fn one_invalid_filename_fails_the_whole_read() {
    let mut index = ready_handle();
    for bad_at in 0..3 {
        let mut produced = vec![
            EngineFile { filename: b"a.pf".to_vec(), contents: vec![1] },
            EngineFile { filename: b"b.pf".to_vec(), contents: vec![2] },
            EngineFile { filename: b"c.pf".to_vec(), contents: vec![3] },
        ];
        produced[bad_at].filename = vec![0x66, 0xff, 0x66];
        let failure = index.get_files(Ok(produced)).unwrap_err();
        assert_eq!(failure.kind(), ErrorKind::Encoding);
        assert_eq!(failure.get_message(), "Invalid UTF-8 in filename");
    }
}

#[test]
fn engine_failure_on_read_is_an_indexing_error() {
    let mut index = ready_handle();
    let failure = index.get_files(Err("index not built".to_string())).unwrap_err();
    assert_eq!(failure.kind(), ErrorKind::Indexing);
    assert_eq!(failure.get_message(), "Error getting files: index not built");
}

#[test]
fn handle_owns_the_session_it_was_started_with() {
    let config = PhpPagefindServiceConfig::__construct(true, true, None);
    let mut index = PhpPagefindIndex::__construct(&config, Ok(vec!["started".to_string()])).unwrap();
    assert_eq!(*index.session_mut(), vec!["started".to_string()]);
    index.session_mut().push("add a.html".to_string());
    let response = index.add_html_file("a.html".to_string(), Ok("1 page".to_string())).unwrap();
    assert!(response.is_success());
    assert!(index.write_files("out".to_string(), Err("no space".to_string())).is_err());
    assert_eq!(*index.session_mut(), vec!["started".to_string(), "add a.html".to_string()]);
}

#[test]
fn no_handle_without_a_session() {
    let config = PhpPagefindServiceConfig::__construct(true, true, None);
    let started: Result<u8, String> = Err(String::new());
    let failure = PhpPagefindIndex::__construct(&config, started).unwrap_err();
    assert_eq!(failure.kind(), ErrorKind::Construction);
    assert_eq!(failure.get_message(), "Failed to create PagefindIndex: ");
}
