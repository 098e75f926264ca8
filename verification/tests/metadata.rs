use ebidownload::metadata::{
    parse_sra_xml, scan_event, CurrentFile, MetadataError, MetadataReply, MetadataStep, SraUtils,
    METADATA_ATTEMPTS, METADATA_RETRY_SECONDS,
};
use ebidownload::xml::{XmlAttribute, XmlEvent};

fn pair(key: &str, value: &str) -> XmlAttribute {
    XmlAttribute::Pair { key: key.as_bytes().to_vec(), value: value.as_bytes().to_vec() }
}

fn element(name: &str, attributes: Vec<XmlAttribute>) -> XmlEvent {
    XmlEvent::Start { name: name.as_bytes().to_vec(), attributes }
}

fn self_closing(name: &str, attributes: Vec<XmlAttribute>) -> XmlEvent {
    XmlEvent::Empty { name: name.as_bytes().to_vec(), attributes }
}

const DOCUMENT: &str = r#"<?xml version="1.0"?>
<EXPERIMENT_PACKAGE_SET>
  <RUN_SET>
    <RUN accession="SRR000001" size="111" md5="ffff">
      <SRAFiles>
        <SRAFile filename="SRR000001.lite" size="7" md5="0000">
          <Alternatives url="https://storage.example.org/SRR000001.lite" free_egress="-" org="GCP"/>
        </SRAFile>
        <SRAFile filename="SRR000001" size="25000000" md5="9e107d9d372bb6826bd81d3542a419d6">
          <Alternatives url="https://sra-download.example.org/SRR000001" free_egress="worldwide" org="NCBI"/>
          <Alternatives url="https://sra-pub-run-odp.s3.amazonaws.com/sra/SRR000001/SRR000001" free_egress="worldwide" org="AWS"></Alternatives>
          <Alternatives url="s3://other-bucket/other" free_egress="worldwide" org="AWS"/>
        </SRAFile>
      </SRAFiles>
    </RUN>
  </RUN_SET>
</EXPERIMENT_PACKAGE_SET>"#;

#[test]
fn first_free_alternative_wins() {
    let found = parse_sra_xml(DOCUMENT).unwrap();
    assert_eq!(found.s3_uri, "s3://sra-pub-run-odp/sra/SRR000001/SRR000001");
    assert_eq!(found.http_url, "https://sra-pub-run-odp.s3.amazonaws.com/sra/SRR000001/SRR000001");
    assert_eq!(found.md5.as_deref(), Some("9e107d9d372bb6826bd81d3542a419d6"));
    assert_eq!(found.size, 25_000_000);
}

#[test]
fn document_without_free_alternative_resolves_to_nothing() {
    let xml = r#"<RUN><SRAFile size="5" md5="aa">
        <Alternatives url="https://b.s3.amazonaws.com/k" free_egress="us-east-1" org="AWS"/>
        <Alternatives url="https://b.s3.amazonaws.com/k" free_egress="worldwide" org="GCP"/>
        <Alternatives url="ftp://host/k" free_egress="worldwide" org="AWS"/>
        <Alternatives free_egress="worldwide" org="AWS"/>
    </SRAFile></RUN>"#;
    assert!(parse_sra_xml(xml).is_none());
    assert!(parse_sra_xml("").is_none());
    assert!(parse_sra_xml("<a><b/></a>").is_none());
}

#[test]
fn names_and_values_match_whatever_their_case() {
    let xml = r#"<srafile SIZE="42" Md5="AbC"/><ALTERNATIVES URL="s3://bucket/key" Free_Egress="WorldWide" ORG="aws"/>"#;
    let found = parse_sra_xml(xml).unwrap();
    assert_eq!(found.s3_uri, "s3://bucket/key");
    assert_eq!(found.http_url, "https://bucket.s3.amazonaws.com/key");
    assert_eq!(found.md5.as_deref(), Some("AbC"));
    assert_eq!(found.size, 42);
}

#[test]
fn each_file_descriptor_resets_checksum_and_size() {
    let xml = r#"<SRAFile size="9" md5="old"/><Run accession="x"/>
        <Alternatives url="s3://b/k" free_egress="worldwide" org="AWS"/>"#;
    let found = parse_sra_xml(xml).unwrap();
    assert_eq!(found.md5, None);
    assert_eq!(found.size, 0);
    let bad_size = r#"<SRAFile size="many" md5="m"/><Alternatives url="s3://b/k" free_egress="worldwide" org="AWS"/>"#;
    let found = parse_sra_xml(bad_size).unwrap();
    assert_eq!(found.size, 0);
    assert_eq!(found.md5.as_deref(), Some("m"));
}

#[test]
fn malformed_markup_is_passed_over() {
    let xml = r#"<a></b><SRAFile size="3" broken md5="m"/><Alternatives url="s3://b/k" free_egress="worldwide" org="AWS"/>"#;
    let found = parse_sra_xml(xml).unwrap();
    assert_eq!(found.s3_uri, "s3://b/k");
    assert_eq!(found.size, 3);
    assert_eq!(found.md5.as_deref(), Some("m"));
}

#[test]
fn namespace_prefixes_are_not_part_of_a_name() {
    let xml = r#"<ns:SRAFile size="8"/><ns:Alternatives url="s3://b/k" free_egress="worldwide" org="AWS"/>"#;
    assert_eq!(parse_sra_xml(xml).unwrap().size, 8);
}

#[test]
fn scan_event_follows_the_current_file() {
    let mut current = CurrentFile { md5: None, size: 0 };
    let file = element("SRAFile", vec![pair("md5", "a"), XmlAttribute::Malformed, pair("size", "10"), pair("MD5", "b")]);
    assert!(scan_event(&file, &mut current).is_none());
    assert_eq!(current.md5.as_deref(), Some("b"));
    assert_eq!(current.size, 10);

    assert!(scan_event(&XmlEvent::Other, &mut current).is_none());
    assert!(scan_event(&element("Other", vec![pair("size", "1")]), &mut current).is_none());
    assert_eq!(current.size, 10);

    let paid = element("Alternatives", vec![pair("org", "AWS"), pair("url", "s3://b/k")]);
    assert!(scan_event(&paid, &mut current).is_none());
    assert_eq!(current.size, 10);

    let free = element(
        "Alternatives",
        vec![pair("url", "s3://first/k"), pair("org", "AWS"), pair("free_egress", "worldwide"), pair("url", "s3://last/k")],
    );
    let found = scan_event(&free, &mut current).unwrap();
    assert_eq!(found.s3_uri, "s3://last/k");
    assert_eq!(found.http_url, "https://last.s3.amazonaws.com/k");
    assert_eq!(found.md5.as_deref(), Some("b"));
    assert_eq!(found.size, 10);
}

#[test]
fn opening_and_self_closing_tags_count_alike() {
    let attributes = || vec![pair("org", "AWS"), pair("free_egress", "worldwide"), pair("url", "s3://b/k")];
    for file in [element("SRAFile", vec![pair("size", "6")]), self_closing("SRAFile", vec![pair("size", "6")])] {
        for alternative in [element("Alternatives", attributes()), self_closing("Alternatives", attributes())] {
            let mut current = CurrentFile { md5: None, size: 0 };
            assert!(scan_event(&file, &mut current).is_none());
            let found = scan_event(&alternative, &mut current).unwrap();
            assert_eq!(found.s3_uri, "s3://b/k");
            assert_eq!(found.size, 6);
        }
    }
    let open = r#"<SRAFile size="6"><Alternatives url="s3://b/k" free_egress="worldwide" org="AWS"></Alternatives></SRAFile>"#;
    let closed = r#"<SRAFile size="6"/><Alternatives url="s3://b/k" free_egress="worldwide" org="AWS"/>"#;
    assert_eq!(parse_sra_xml(open).unwrap().size, 6);
    assert_eq!(parse_sra_xml(closed).unwrap().size, 6);
}

#[test]
fn rejected_input_and_other_events_change_nothing() {
    let mut current = CurrentFile { md5: Some("m".to_string()), size: 9 };
    for event in [XmlEvent::Malformed, XmlEvent::Other, XmlEvent::Eof] {
        assert!(scan_event(&event, &mut current).is_none());
        assert_eq!(current.md5.as_deref(), Some("m"));
        assert_eq!(current.size, 9);
    }
    // A closing tag without its opening tag is rejected; the search goes on behind it.
    let xml = r#"</stray><SRAFile size="2"/></x><Alternatives url="s3://b/k" free_egress="worldwide" org="AWS"/>"#;
    assert_eq!(parse_sra_xml(xml).unwrap().size, 2);
    // A tag that never closes ends the document.
    assert!(parse_sra_xml(r#"<SRAFile size="2"/><Alternatives url="s3://b/k" free_egress="worldwide" org="AWS""#).is_none());
}

#[test]
fn bytes_that_are_no_text_read_as_empty() {
    let mut current = CurrentFile { md5: None, size: 5 };
    let file = XmlEvent::Empty {
        name: b"SRAFile".to_vec(),
        attributes: vec![XmlAttribute::Pair { key: b"md5".to_vec(), value: vec![0xff, 0xfe] }],
    };
    assert!(scan_event(&file, &mut current).is_none());
    assert_eq!(current.md5.as_deref(), Some(""));
    assert_eq!(current.size, 0);
    let nameless = XmlEvent::Start { name: vec![0xc3], attributes: vec![pair("size", "4")] };
    assert!(scan_event(&nameless, &mut current).is_none());
    assert_eq!(current.size, 0);
}

#[test]
fn request_url_names_the_run() {
    assert_eq!(
        SraUtils::request_url("SRR000001"),
        "https://eutils.ncbi.nlm.nih.gov/entrez/eutils/efetch.fcgi?db=sra&id=SRR000001&rettype=full&retmode=xml"
    );
}

#[test]
fn lookup_is_retried_up_to_the_attempt_ceiling() {
    assert_eq!(METADATA_ATTEMPTS, 10);
    for attempt in 1..METADATA_ATTEMPTS {
        match SraUtils::on_reply(attempt, MetadataReply::Unreachable) {
            MetadataStep::RetryAfter { seconds } => assert_eq!(seconds, METADATA_RETRY_SECONDS),
            other => panic!("attempt {attempt}: {other:?}"),
        }
        assert!(matches!(
            SraUtils::on_reply(attempt, MetadataReply::BadStatus { code: 503 }),
            MetadataStep::RetryAfter { seconds: 10 }
        ));
    }
    assert!(matches!(
        SraUtils::on_reply(10, MetadataReply::Unreachable),
        MetadataStep::Unavailable { error: MetadataError::Unreachable }
    ));
    assert!(matches!(
        SraUtils::on_reply(10, MetadataReply::BadStatus { code: 429 }),
        MetadataStep::Unavailable { error: MetadataError::BadStatus { code: 429 } }
    ));
    assert!(matches!(
        SraUtils::on_reply(1, MetadataReply::BodyUnreadable),
        MetadataStep::Unavailable { error: MetadataError::BodyUnreadable }
    ));
}

#[test]
fn a_document_ends_the_lookup() {
    match SraUtils::on_reply(3, MetadataReply::Body { text: DOCUMENT.to_string() }) {
        MetadataStep::Resolved { metadata: Some(m) } => assert_eq!(m.size, 25_000_000),
        other => panic!("{other:?}"),
    }
    assert!(matches!(
        SraUtils::on_reply(10, MetadataReply::Body { text: "<none/>".to_string() }),
        MetadataStep::Resolved { metadata: None }
    ));
}
