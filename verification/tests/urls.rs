use ebidownload::metadata::resolve_urls;

#[test]
fn http_form_gives_object_store_form() {
    let (s3, http) = resolve_urls("https://sra-pub-run-odp.s3.amazonaws.com/sra/SRR000001/SRR000001").unwrap();
    assert_eq!(s3, "s3://sra-pub-run-odp/sra/SRR000001/SRR000001");
    assert_eq!(http, "https://sra-pub-run-odp.s3.amazonaws.com/sra/SRR000001/SRR000001");
}

#[test]
fn object_store_form_gives_http_form() {
    let (s3, http) = resolve_urls("s3://bucket/dir/key.sra").unwrap();
    assert_eq!(s3, "s3://bucket/dir/key.sra");
    assert_eq!(http, "https://bucket.s3.amazonaws.com/dir/key.sra");
}

#[test]
fn other_locations_have_no_dual_form() {
    assert!(resolve_urls("https://example.org/file").is_none());
    assert!(resolve_urls("s3://bucket-without-key").is_none());
    assert!(resolve_urls("gs://bucket/key").is_none());
    assert!(resolve_urls("").is_none());
}
