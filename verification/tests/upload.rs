use alist_client::client::UploadPut;
use alist_client::Client;

#[test]
fn upload_put_builder_sets_expected_defaults_and_hashes() {
    let upload = UploadPut::new("/dst/demo.txt", b"hello".to_vec())
        .password("secret")
        .overwrite(false)
        .as_task(true)
        .content_type("text/plain")
        .last_modified_millis(1_700_000_000_000)
        .hashes(Some("md5"), Some("sha1"), Some("sha256"));

    assert_eq!(upload.file_path, "/dst/demo.txt");
    assert_eq!(upload.body, b"hello".to_vec());
    assert_eq!(upload.password, "secret");
    assert!(!upload.overwrite);
    assert!(upload.as_task);
    assert_eq!(upload.content_type.as_deref(), Some("text/plain"));
    assert_eq!(upload.last_modified_millis, Some(1_700_000_000_000));
    assert_eq!(upload.md5.as_deref(), Some("md5"));
    assert_eq!(upload.sha1.as_deref(), Some("sha1"));
    assert_eq!(upload.sha256.as_deref(), Some("sha256"));
}

fn pairs(headers: &[(String, String)]) -> Vec<(&str, &str)> {
    headers.iter().map(|(n, v)| (n.as_str(), v.as_str())).collect()
}

#[test]
fn upload_new_has_default_headers() {
    let upload = UploadPut::new("/dst/a.txt", Vec::new());
    assert_eq!(upload.password, "");
    assert!(upload.overwrite);
    assert!(!upload.as_task);
    assert_eq!(upload.content_type, None);
    assert_eq!(upload.last_modified_millis, None);
    assert_eq!(upload.md5, None);

    let client = Client::new("https://alist.example").unwrap();
    let headers = client.upload_put_headers(&upload);
    assert_eq!(
        pairs(&headers),
        vec![
            ("File-Path", "%2Fdst%2Fa.txt"),
            ("Password", ""),
            ("Overwrite", "true"),
            ("As-Task", "false"),
        ]
    );
}

#[test]
fn upload_headers_carry_every_present_field_in_order() {
    let upload = UploadPut::new("/阿里 云/x~y_z-1.txt", b"data".to_vec())
        .password("pw")
        .overwrite(false)
        .as_task(true)
        .content_type("text/plain")
        .last_modified_millis(-1_700_000_000_000)
        .hashes(Some("m"), None, Some("s256"));
    let client = Client::with_token("https://alist.example", "tok").unwrap();
    let headers = client.upload_put_headers(&upload);
    assert_eq!(
        pairs(&headers),
        vec![
            ("Authorization", "tok"),
            ("File-Path", "%2F%E9%98%BF%E9%87%8C%20%E4%BA%91%2Fx~y_z-1.txt"),
            ("Password", "pw"),
            ("Overwrite", "false"),
            ("As-Task", "true"),
            ("Content-Type", "text/plain"),
            ("Last-Modified", "-1700000000000"),
            ("X-File-Md5", "m"),
            ("X-File-Sha256", "s256"),
        ]
    );
}

#[test]
fn last_modified_is_written_in_decimal() {
    let client = Client::new("https://alist.example").unwrap();
    for (millis, text) in [
        (0i64, "0"),
        (7, "7"),
        (10, "10"),
        (1_700_000_000_000, "1700000000000"),
        (i64::MAX, "9223372036854775807"),
        (i64::MIN, "-9223372036854775808"),
        (-5, "-5"),
    ] {
        let upload = UploadPut::new("a", Vec::new()).last_modified_millis(millis);
        let headers = client.upload_put_headers(&upload);
        let found = headers
            .iter()
            .find(|(n, _)| n == "Last-Modified")
            .map(|(_, v)| v.as_str());
        assert_eq!(found, Some(text));
    }
}
