//! Metadata of a sequencing run: where its archive can be fetched free of
//! egress charges, and the checksum and size it should have.

use crate::text::{
    eq_ignore_ascii_case, eq_ignore_case, has_prefix, lemma_eq_ignore_case_apart, opt_text,
    parse_u64, parsed_u64, split_once, split_text,
    strip_prefix, strip_text_prefix, text_of, text_or_empty,
};
use crate::xml::{
    attribute_views, document_events, next_event, open_document, pending_events, XmlAttribute,
    XmlAttributeView, XmlEvent, XmlEventView,
};
use vstd::prelude::*;

verus! {

/// Where a run's archive lives, in both addressing forms, with the checksum
/// and size that the metadata service gives for it.
#[derive(Debug, Clone)]
pub struct SraMetadata {
    /// Object-store form: `s3://{bucket}/{key}`.
    pub s3_uri: String,
    /// HTTP form: `https://{bucket}.s3.amazonaws.com/{key}`.
    pub http_url: String,
    /// Expected MD5 of the archive in hexadecimal, where the service gave one.
    pub md5: Option<String>,
    /// Size of the archive in bytes.
    pub size: u64,
}

/// `SraMetadata` with its texts as sequences of characters.
pub struct SraMetadataView {
    pub s3_uri: Seq<char>,
    pub http_url: Seq<char>,
    pub md5: Option<Seq<char>>,
    pub size: u64,
}

impl View for SraMetadata {
    type V = SraMetadataView;

    open spec fn view(&self) -> SraMetadataView {
        SraMetadataView {
            s3_uri: self.s3_uri@,
            http_url: self.http_url@,
            md5: opt_text(self.md5),
            size: self.size,
        }
    }
}

/// The two addressing forms of one location, object-store form first.
///
/// An HTTP location `https://{bucket}.s3.amazonaws.com/{key}` gives
/// `s3://{bucket}/{key}`, the bucket ending at the first occurrence of the
/// host suffix; an object-store location `s3://{bucket}/{key}` gives the
/// HTTP form, the bucket ending at the first `/`. The given form is kept as
/// it is. Anything else has no such pair.
pub open spec fn dual_forms(raw: Seq<char>) -> Option<(Seq<char>, Seq<char>)> {
    let http = match strip_prefix(raw, "https://"@) {
        Some(rest) => split_once(rest, ".s3.amazonaws.com/"@),
        None => None,
    };
    let store = match strip_prefix(raw, "s3://"@) {
        Some(rest) => split_once(rest, "/"@),
        None => None,
    };
    match http {
        Some((bucket, key)) => Some(("s3://"@ + bucket + "/"@ + key, raw)),
        None => match store {
            Some((bucket, key)) => Some((raw, "https://"@ + bucket + ".s3.amazonaws.com/"@ + key)),
            None => None,
        },
    }
}

/// Where a location has a pair of forms, neither is left out: the first
/// begins with `s3://`, the second with `https://`, and one of them is the
/// location as it was given.
pub proof fn lemma_dual_forms_are_whole(raw: Seq<char>)
    ensures
        dual_forms(raw) matches Some((s3_uri, http_url)) ==> has_prefix(s3_uri, "s3://"@)
            && has_prefix(http_url, "https://"@) && (s3_uri == raw || http_url == raw),
{
    if let Some((s3_uri, http_url)) = dual_forms(raw) {
        assert(s3_uri.subrange(0, "s3://"@.len() as int) =~= "s3://"@);
        assert(http_url.subrange(0, "https://"@.len() as int) =~= "https://"@);
    }
}

/// Derives both addressing forms of a location from either of them.
pub fn resolve_urls(raw_url: &str) -> (forms: Option<(String, String)>)
    ensures
        match forms {
            Some((s3_uri, http_url)) => dual_forms(raw_url@) == Some((s3_uri@, http_url@)),
            None => dual_forms(raw_url@) is None,
        },
{
    if let Some(rest) = strip_text_prefix(raw_url, "https://") {
        if let Some((bucket, key)) = split_text(rest.as_str(), ".s3.amazonaws.com/") {
            let mut s3 = String::from_str("s3://");
            s3.append(bucket.as_str());
            s3.append("/");
            s3.append(key.as_str());
            return Some((s3, String::from_str(raw_url)));
        }
    }
    if let Some(rest) = strip_text_prefix(raw_url, "s3://") {
        if let Some((bucket, key)) = split_text(rest.as_str(), "/") {
            let mut https = String::from_str("https://");
            https.append(bucket.as_str());
            https.append(".s3.amazonaws.com/");
            https.append(key.as_str());
            return Some((String::from_str(raw_url), https));
        }
    }
    None
}

/// Checksum and size of the file that the document is describing at some
/// point: those of the last file descriptor seen.
pub struct CurrentFile {
    pub md5: Option<String>,
    pub size: u64,
}

/// `CurrentFile` with its text as a sequence of characters.
pub struct CurrentFileView {
    pub md5: Option<Seq<char>>,
    pub size: u64,
}

impl View for CurrentFile {
    type V = CurrentFileView;

    open spec fn view(&self) -> CurrentFileView {
        CurrentFileView {
            md5: opt_text(self.md5),
            size: self.size,
        }
    }
}

/// Whether `bytes` spell `name`, whatever the case of their letters.
pub open spec fn spells(bytes: Seq<u8>, name: Seq<char>) -> bool {
    eq_ignore_case(text_of(bytes), name)
}

/// The value of the last attribute whose key spells `key`, as text.
pub open spec fn last_value(attributes: Seq<XmlAttributeView>, key: Seq<char>) -> Option<Seq<char>>
    decreases attributes.len(),
{
    if attributes.len() == 0 {
        None
    } else {
        match attributes.last() {
            XmlAttributeView::Pair { key: k, value } if spells(k, key) => Some(text_of(value)),
            _ => last_value(attributes.drop_last(), key),
        }
    }
}

/// Whether some attribute has a key that spells `key` and a value that
/// spells `value`.
pub open spec fn has_pair(attributes: Seq<XmlAttributeView>, key: Seq<char>, value: Seq<char>) -> bool {
    exists|i: int|
        0 <= i < attributes.len() && is_pair(#[trigger] attributes[i], key, value)
}

/// Whether an attribute has a key that spells `key` and a value that spells
/// `value`.
pub open spec fn is_pair(attribute: XmlAttributeView, key: Seq<char>, value: Seq<char>) -> bool {
    match attribute {
        XmlAttributeView::Pair { key: k, value: v } => spells(k, key) && spells(v, value),
        XmlAttributeView::Malformed => false,
    }
}

/// What a file descriptor element says of its file: the checksum of its
/// `md5` attribute, and the number in its `size` attribute, or 0 where it
/// has none or it is no number.
pub open spec fn described_file(attributes: Seq<XmlAttributeView>) -> CurrentFileView {
    CurrentFileView {
        md5: last_value(attributes, "md5"@),
        size: match last_value(attributes, "size"@) {
            Some(v) => match parsed_u64(v) {
                Some(n) => n,
                None => 0,
            },
            None => 0,
        },
    }
}

/// The location that an alternative offers, in both forms, where the
/// alternative is served by AWS, free of egress charges worldwide, and its
/// URL has a dual form.
pub open spec fn free_location(attributes: Seq<XmlAttributeView>) -> Option<(Seq<char>, Seq<char>)> {
    let url = match last_value(attributes, "url"@) {
        Some(u) => u,
        None => Seq::<char>::empty(),
    };
    if has_pair(attributes, "org"@, "AWS"@) && has_pair(attributes, "free_egress"@, "worldwide"@)
        && url.len() > 0 {
        dual_forms(url)
    } else {
        None
    }
}

/// The outcome of looking at one event.
pub enum ScanStep {
    /// The event is an alternative that can be fetched for free.
    Found(SraMetadataView),
    /// The search goes on, with these values for the current file.
    Next(CurrentFileView),
}

/// What an element means to the search.
///
/// An `SRAFile` or `Run` element starts a new current file. An
/// `Alternatives` element that offers a free location ends the search, with
/// that location and the checksum and size of the current file. Every other
/// element is passed over. Element names are matched whatever their case.
pub open spec fn element_step(
    name: Seq<u8>,
    attributes: Seq<XmlAttributeView>,
    current: CurrentFileView,
) -> ScanStep {
    if spells(name, "SRAFile"@) || spells(name, "Run"@) {
        ScanStep::Next(described_file(attributes))
    } else if spells(name, "Alternatives"@) {
        match free_location(attributes) {
            Some((s3_uri, http_url)) => ScanStep::Found(
                SraMetadataView { s3_uri, http_url, md5: current.md5, size: current.size },
            ),
            None => ScanStep::Next(current),
        }
    } else {
        ScanStep::Next(current)
    }
}

/// What one event means to the search.
///
/// An element counts the same whether its tag is opening or self-closing.
/// Input that the parser rejects is passed over and the search goes on, as
/// it does over text, closing tags and the like. The end of the document
/// changes nothing.
pub open spec fn scan_step(event: XmlEventView, current: CurrentFileView) -> ScanStep {
    match event {
        XmlEventView::Start { name, attributes } => element_step(name, attributes, current),
        XmlEventView::Empty { name, attributes } => element_step(name, attributes, current),
        XmlEventView::Malformed => ScanStep::Next(current),
        XmlEventView::Other => ScanStep::Next(current),
        XmlEventView::Eof => ScanStep::Next(current),
    }
}

/// The first free alternative among `events`, searched in order from
/// `current`.
pub open spec fn scan(events: Seq<XmlEventView>, current: CurrentFileView) -> Option<SraMetadataView>
    decreases events.len(),
{
    if events.len() == 0 {
        None
    } else {
        match scan_step(events[0], current) {
            ScanStep::Found(found) => Some(found),
            ScanStep::Next(next) => scan(events.drop_first(), next),
        }
    }
}

/// The metadata that a document gives: its first free alternative.
pub open spec fn first_free_alternative(events: Seq<XmlEventView>) -> Option<SraMetadataView> {
    scan(events, CurrentFileView { md5: None, size: 0 })
}

/// Whether `bytes` spell `name`, whatever the case of their letters.
pub fn is_named(bytes: &[u8], name: &str) -> (same: bool)
    ensures
        same == spells(bytes@, name@),
{
    let text = text_or_empty(bytes);
    eq_ignore_ascii_case(text.as_str(), name)
}

/// Reads a file descriptor element.
pub fn describe_file(attributes: &Vec<XmlAttribute>) -> (file: CurrentFile)
    ensures
        file@ == described_file(attribute_views(attributes@)),
{
    let ghost all = attribute_views(attributes@);
    let mut md5: Option<String> = None;
    let mut size: u64 = 0;
    let ghost mut size_text: Option<Seq<char>> = None;
    let mut i: usize = 0;
    while i < attributes.len()
        invariant
            i <= attributes.len(),
            all == attribute_views(attributes@),
            opt_text(md5) == last_value(all.take(i as int), "md5"@),
            size_text == last_value(all.take(i as int), "size"@),
            size == match size_text {
                Some(v) => match parsed_u64(v) {
                    Some(n) => n,
                    None => 0,
                },
                None => 0,
            },
        decreases attributes.len() - i,
    {
        proof {
            assert(all.take(i + 1).drop_last() =~= all.take(i as int));
            reveal_strlit("md5");
            reveal_strlit("size");
        }
        match &attributes[i] {
            XmlAttribute::Pair { key, value } => {
                if is_named(key.as_slice(), "md5") {
                    md5 = Some(text_or_empty(value.as_slice()));
                } else if is_named(key.as_slice(), "size") {
                    let text = text_or_empty(value.as_slice());
                    size = match parse_u64(text.as_str()) {
                        Some(n) => n,
                        None => 0,
                    };
                    proof {
                        size_text = Some(text@);
                    }
                }
            },
            XmlAttribute::Malformed => {},
        }
        i += 1;
    }
    assert(all.take(attributes.len() as int) =~= all);
    CurrentFile { md5, size }
}

/// The attribute keys `org`, `free_egress` and `url` are told apart
/// whatever their case.
proof fn lemma_alternative_keys_apart(key: Seq<u8>)
    ensures
        !(spells(key, "org"@) && spells(key, "free_egress"@)),
        !(spells(key, "org"@) && spells(key, "url"@)),
        !(spells(key, "free_egress"@) && spells(key, "url"@)),
{
    reveal_strlit("org");
    reveal_strlit("free_egress");
    reveal_strlit("url");
    lemma_eq_ignore_case_apart(text_of(key), "org"@, "free_egress"@, 0);
    lemma_eq_ignore_case_apart(text_of(key), "org"@, "url"@, 0);
    lemma_eq_ignore_case_apart(text_of(key), "free_egress"@, "url"@, 0);
}

/// Reads an alternative element: the location it offers, where it can be
/// fetched for free.
pub fn offered_location(attributes: &Vec<XmlAttribute>) -> (location: Option<(String, String)>)
    ensures
        match location {
            Some((s3_uri, http_url)) => free_location(attribute_views(attributes@)) == Some(
                (s3_uri@, http_url@),
            ),
            None => free_location(attribute_views(attributes@)) is None,
        },
{
    let ghost all = attribute_views(attributes@);
    let mut is_aws = false;
    let mut is_worldwide = false;
    let mut url = String::new();
    let mut i: usize = 0;
    while i < attributes.len()
        invariant
            i <= attributes.len(),
            all == attribute_views(attributes@),
            is_aws == has_pair(all.take(i as int), "org"@, "AWS"@),
            is_worldwide == has_pair(all.take(i as int), "free_egress"@, "worldwide"@),
            url@ == match last_value(all.take(i as int), "url"@) {
                Some(u) => u,
                None => Seq::<char>::empty(),
            },
        decreases attributes.len() - i,
    {
        let ghost before = all.take(i as int);
        let ghost after = all.take(i + 1);
        let ghost this = attributes@[i as int]@;
        proof {
            assert(after.drop_last() =~= before);
            lemma_has_pair_step(before, this, "org"@, "AWS"@);
            lemma_has_pair_step(before, this, "free_egress"@, "worldwide"@);
        }
        match &attributes[i] {
            XmlAttribute::Pair { key, value } => {
                proof {
                    lemma_alternative_keys_apart(key@);
                }
                if is_named(key.as_slice(), "org") && is_named(value.as_slice(), "AWS") {
                    is_aws = true;
                } else if is_named(key.as_slice(), "free_egress") && is_named(
                    value.as_slice(),
                    "worldwide",
                ) {
                    is_worldwide = true;
                } else if is_named(key.as_slice(), "url") {
                    url = text_or_empty(value.as_slice());
                }
            },
            XmlAttribute::Malformed => {},
        }
        i += 1;
    }
    assert(all.take(attributes.len() as int) =~= all);
    if is_aws && is_worldwide && !url.as_str().is_empty() {
        resolve_urls(url.as_str())
    } else {
        None
    }
}

/// An attribute list has a pair exactly when its last attribute is one or
/// the attributes before it have one.
proof fn lemma_has_pair_step(
    before: Seq<XmlAttributeView>,
    last: XmlAttributeView,
    key: Seq<char>,
    value: Seq<char>,
)
    ensures
        has_pair(before.push(last), key, value) <==> has_pair(before, key, value) || is_pair(
            last,
            key,
            value,
        ),
{
    let all = before.push(last);
    if has_pair(all, key, value) {
        let i = choose|i: int| 0 <= i < all.len() && is_pair(#[trigger] all[i], key, value);
        if i < before.len() {
            assert(is_pair(before[i], key, value));
        }
    }
    if has_pair(before, key, value) {
        let i = choose|i: int| 0 <= i < before.len() && is_pair(#[trigger] before[i], key, value);
        assert(is_pair(all[i], key, value));
    }
    if is_pair(last, key, value) {
        assert(is_pair(all[before.len() as int], key, value));
    }
}

/// Looks at one element of a metadata document. Returns the metadata where
/// the element ends the search; otherwise updates the current file.
pub fn scan_element(name: &[u8], attributes: &Vec<XmlAttribute>, current: &mut CurrentFile) -> (found:
    Option<SraMetadata>)
    ensures
        match element_step(name@, attribute_views(attributes@), old(current)@) {
            ScanStep::Found(metadata) => found matches Some(m) && m@ == metadata && final(current)@
                == old(current)@,
            ScanStep::Next(next) => found is None && final(current)@ == next,
        },
{
    if is_named(name, "SRAFile") || is_named(name, "Run") {
        *current = describe_file(attributes);
        None
    } else if is_named(name, "Alternatives") {
        match offered_location(attributes) {
            Some((s3_uri, http_url)) => {
                let md5 = match &current.md5 {
                    Some(m) => Some(m.clone()),
                    None => None,
                };
                Some(SraMetadata { s3_uri, http_url, md5, size: current.size })
            },
            None => None,
        }
    } else {
        None
    }
}

/// Looks at one event of a metadata document. Returns the metadata where
/// the event ends the search; otherwise updates the current file.
pub fn scan_event(event: &XmlEvent, current: &mut CurrentFile) -> (found: Option<SraMetadata>)
    ensures
        match scan_step(event@, old(current)@) {
            ScanStep::Found(metadata) => found matches Some(m) && m@ == metadata && final(current)@
                == old(current)@,
            ScanStep::Next(next) => found is None && final(current)@ == next,
        },
{
    match event {
        XmlEvent::Start { name, attributes } => scan_element(name.as_slice(), attributes, current),
        XmlEvent::Empty { name, attributes } => scan_element(name.as_slice(), attributes, current),
        XmlEvent::Malformed => None,
        XmlEvent::Other => None,
        XmlEvent::Eof => None,
    }
}

/// Searches a metadata document for the first alternative that can be
/// fetched free of egress charges. `None` means that the document offers
/// none, which is no error.
pub fn parse_sra_xml(xml_text: &str) -> (found: Option<SraMetadata>)
    ensures
        match found {
            Some(m) => first_free_alternative(document_events(xml_text@)) == Some(m@),
            None => first_free_alternative(document_events(xml_text@)) is None,
        },
{
    let mut reader = open_document(xml_text);
    let mut current = CurrentFile { md5: None, size: 0 };
    loop
        invariant
            scan(pending_events(reader), current@) == first_free_alternative(
                document_events(xml_text@),
            ),
        decreases pending_events(reader).len(),
    {
        let event = next_event(&mut reader);
        if let XmlEvent::Eof = event {
            return None;
        }
        if let Some(found) = scan_event(&event, &mut current) {
            return Some(found);
        }
    }
}

/// Attempts at the metadata service before the lookup is given up.
pub const METADATA_ATTEMPTS: u32 = 10;

/// The wait between two attempts at the metadata service, in seconds.
pub const METADATA_RETRY_SECONDS: u64 = 10;

/// The time allowed for one request to the metadata service, in seconds.
pub const METADATA_TIMEOUT_SECONDS: u64 = 60;

/// How one request to the metadata service ended.
#[derive(Debug)]
pub enum MetadataReply {
    /// A success status, with the document that came with it.
    Body { text: String },
    /// A success status, but the document could not be read.
    BodyUnreadable,
    /// A non-success status.
    BadStatus { code: u16 },
    /// No response: the connection failed or timed out.
    Unreachable,
}

/// Why no metadata could be had.
#[derive(Clone, Copy, Debug, PartialEq, Eq, Structural)]
pub enum MetadataError {
    /// The service still answered with this non-success status at the last
    /// attempt.
    BadStatus { code: u16 },
    /// The service could still not be reached at the last attempt.
    Unreachable,
    /// The service answered, but its document could not be read.
    BodyUnreadable,
}

/// What follows a request to the metadata service.
#[derive(Debug)]
pub enum MetadataStep {
    /// The lookup is done. `None` means that the run has no alternative
    /// that can be fetched for free, which is no error.
    Resolved { metadata: Option<SraMetadata> },
    /// Wait, then ask again.
    RetryAfter { seconds: u64 },
    /// The lookup has failed for good.
    Unavailable { error: MetadataError },
}

/// `MetadataStep` as a mathematical value.
pub enum MetadataStepView {
    Resolved { metadata: Option<SraMetadataView> },
    RetryAfter { seconds: u64 },
    Unavailable { error: MetadataError },
}

impl View for MetadataStep {
    type V = MetadataStepView;

    open spec fn view(&self) -> MetadataStepView {
        match self {
            MetadataStep::Resolved { metadata } => MetadataStepView::Resolved {
                metadata: match metadata {
                    Some(m) => Some(m@),
                    None => None,
                },
            },
            MetadataStep::RetryAfter { seconds } => MetadataStepView::RetryAfter { seconds: *seconds },
            MetadataStep::Unavailable { error } => MetadataStepView::Unavailable { error: *error },
        }
    }
}

/// The address at which the metadata service describes a run.
pub open spec fn metadata_url(run_id: Seq<char>) -> Seq<char> {
    "https://eutils.ncbi.nlm.nih.gov/entrez/eutils/efetch.fcgi?db=sra&id="@ + run_id
        + "&rettype=full&retmode=xml"@
}

/// What follows the `attempt`-th request, which ended in `reply`.
///
/// A document ends the lookup with what it offers. A document that cannot
/// be read fails the lookup at once. A non-success status or an
/// unreachable service is answered with another attempt after a fixed
/// wait, until `METADATA_ATTEMPTS` attempts have been made.
pub open spec fn metadata_step(attempt: u32, reply: MetadataReply) -> MetadataStepView {
    match reply {
        MetadataReply::Body { text } => MetadataStepView::Resolved {
            metadata: first_free_alternative(document_events(text@)),
        },
        MetadataReply::BodyUnreadable => MetadataStepView::Unavailable {
            error: MetadataError::BodyUnreadable,
        },
        MetadataReply::BadStatus { code } => if attempt >= METADATA_ATTEMPTS {
            MetadataStepView::Unavailable { error: MetadataError::BadStatus { code } }
        } else {
            MetadataStepView::RetryAfter { seconds: METADATA_RETRY_SECONDS }
        },
        MetadataReply::Unreachable => if attempt >= METADATA_ATTEMPTS {
            MetadataStepView::Unavailable { error: MetadataError::Unreachable }
        } else {
            MetadataStepView::RetryAfter { seconds: METADATA_RETRY_SECONDS }
        },
    }
}

/// Lookup of a run's metadata at the metadata service.
pub struct SraUtils;

impl SraUtils {
    /// The address to ask for the metadata of `run_id`.
    pub fn request_url(run_id: &str) -> (url: String)
        ensures
            url@ == metadata_url(run_id@),
    {
        let mut url = String::from_str(
            "https://eutils.ncbi.nlm.nih.gov/entrez/eutils/efetch.fcgi?db=sra&id=",
        );
        url.append(run_id);
        url.append("&rettype=full&retmode=xml");
        url
    }

    /// Decides what follows the `attempt`-th request, counted from 1.
    pub fn on_reply(attempt: u32, reply: MetadataReply) -> (step: MetadataStep)
        ensures
            step@ == metadata_step(attempt, reply),
    {
        match reply {
            MetadataReply::Body { text } => MetadataStep::Resolved {
                metadata: parse_sra_xml(text.as_str()),
            },
            MetadataReply::BodyUnreadable => MetadataStep::Unavailable {
                error: MetadataError::BodyUnreadable,
            },
            MetadataReply::BadStatus { code } => {
                if attempt >= METADATA_ATTEMPTS {
                    MetadataStep::Unavailable { error: MetadataError::BadStatus { code } }
                } else {
                    MetadataStep::RetryAfter { seconds: METADATA_RETRY_SECONDS }
                }
            },
            MetadataReply::Unreachable => {
                if attempt >= METADATA_ATTEMPTS {
                    MetadataStep::Unavailable { error: MetadataError::Unreachable }
                } else {
                    MetadataStep::RetryAfter { seconds: METADATA_RETRY_SECONDS }
                }
            },
        }
    }
}

} // verus!
