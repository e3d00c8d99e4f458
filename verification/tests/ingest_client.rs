use file_sync::client::{download_url, parse_file_mappings, ping_url, upload_url, ReqProtocol};
use file_sync::errors::SyncError;
use file_sync::ingest::{parse_form, RawField};
use file_sync::schema::{Action, NotActionError, UploadForm};

fn field(name: &str, value: &[u8]) -> RawField {
    RawField { name: name.to_string(), value: value.to_vec() }
}

#[test]
fn parse_form_fills_every_recognised_field() {
    let fields = vec![
        field("action", b"force"),
        field("file", b"payload bytes"),
        field("target_file_path", b"dir/f.txt"),
    ];
    let form = parse_form(&fields).unwrap();
    assert_eq!(form.action, Action::Force);
    assert_eq!(form.content, b"payload bytes".to_vec());
    assert_eq!(form.target_file_path, "dir/f.txt");
}

#[test]
fn parse_form_defaults_when_fields_are_absent() {
    let form = parse_form(&vec![]).unwrap();
    assert_eq!(form.action, Action::Safe);
    assert!(form.content.is_empty());
    assert!(form.target_file_path.is_empty());
}

#[test]
fn parse_form_ignores_unknown_fields() {
    let fields = vec![
        field("shape", b"round"),
        field("file", b"x"),
        field("target_file_path", b"a/b"),
    ];
    let form = parse_form(&fields).unwrap();
    assert_eq!(form.content, b"x".to_vec());
    assert_eq!(form.target_file_path, "a/b");
}

#[test]
fn parse_form_later_field_overrides_earlier() {
    let fields = vec![
        field("target_file_path", b"first/one"),
        field("target_file_path", b"second/two"),
    ];
    let form = parse_form(&fields).unwrap();
    assert_eq!(form.target_file_path, "second/two");
}

#[test]
fn parse_form_rejects_undecodable_action() {
    let fields = vec![field("action", &[0xff, 0xfe, 0xfd])];
    assert!(matches!(parse_form(&fields), Err(SyncError::MalformedMultipartField)));
    assert_eq!(SyncError::MalformedMultipartField.message(), "read content disposition err");
}

#[test]
fn parse_form_rejects_undecodable_target_path() {
    let fields = vec![field("target_file_path", &[0xc3, 0x28])];
    assert!(matches!(parse_form(&fields), Err(SyncError::MalformedMultipartField)));
}

#[test]
fn parse_form_keeps_binary_file_content() {
    let fields = vec![field("file", &[0xff, 0x00, 0xfe])];
    let form = parse_form(&fields).unwrap();
    assert_eq!(form.content, vec![0xff, 0x00, 0xfe]);
}

#[test]
fn action_parse_is_lenient() {
    assert_eq!(Action::from_str("safe"), Action::Safe);
    assert_eq!(Action::from_str("force"), Action::Force);
    assert_eq!(Action::from_str(""), Action::Safe);
    assert_eq!(Action::from_str("Force"), Action::Safe);
    assert_eq!(Action::from_str("anything else"), Action::Safe);
}

#[test]
fn action_names_and_default() {
    assert_eq!(Action::Safe.as_str(), "safe");
    assert_eq!(Action::Force.as_str(), "force");
    assert_eq!(Action::default(), Action::Safe);
    assert_eq!(UploadForm::default().action, Action::Safe);
    assert_eq!(NotActionError.message(), "not support action error");
}

#[test]
fn file_mappings_parse_in_order() {
    let pairs = parse_file_mappings("l1:r1,l2:r2").unwrap();
    assert_eq!(
        pairs,
        vec![
            ("l1".to_string(), "r1".to_string()),
            ("l2".to_string(), "r2".to_string()),
        ]
    );
}

#[test]
fn file_mappings_extra_colon_segments_ignored() {
    let pairs = parse_file_mappings("a:b:c").unwrap();
    assert_eq!(pairs, vec![("a".to_string(), "b".to_string())]);
}

#[test]
fn file_mappings_without_colon_are_malformed() {
    assert!(parse_file_mappings("no-colon-here").is_none());
    assert!(parse_file_mappings("a:b,").is_none());
}

#[test]
fn protocol_recognised_up_to_ascii_case() {
    assert!(matches!(ReqProtocol::new("http"), Some(ReqProtocol::Http(_))));
    assert!(matches!(ReqProtocol::new("HTTP"), Some(ReqProtocol::Http(_))));
    assert!(matches!(ReqProtocol::new("https"), Some(ReqProtocol::Https(_))));
    assert!(matches!(ReqProtocol::new("HttpS"), Some(ReqProtocol::Https(_))));
    assert!(ReqProtocol::new("ftp").is_none());
    assert!(ReqProtocol::new("").is_none());
}

#[test]
fn urls_name_the_fixed_routes() {
    assert_eq!(ping_url("http", "127.0.0.1:9091"), "http://127.0.0.1:9091/ping");
    assert_eq!(upload_url("http", "h:1"), "http://h:1/upload");
    assert_eq!(download_url("https", "example.test"), "https://example.test/download");
}

#[test]
fn protocol_data_is_the_lowercased_scheme() {
    assert_eq!(ReqProtocol::new("HTTP").unwrap().data(), "http");
    assert_eq!(ReqProtocol::new("https").unwrap().data(), "https");
}
