//! Whole-file integrity: the MD5 digest of a file, fed block by block, and
//! its comparison with the digest that the metadata promises.

use crate::text::{eq_ignore_ascii_case, eq_ignore_case, hex_lower, to_hex_lower};
use vstd::prelude::*;

verus! {

/// `md5::Context`, the state of a digest in progress. Nothing inside it is
/// visible to the verifier.
#[verifier::external_type_specification]
#[verifier::external_body]
pub struct ExContext(md5::Context);

/// The bytes that a digest context has been fed, in order.
pub uninterp spec fn consumed(context: md5::Context) -> Seq<u8>;

/// The MD5 digest of `data`.
pub uninterp spec fn md5_digest(data: Seq<u8>) -> Seq<u8>;

/// `md5::Context::new`: a context that has been fed nothing.
#[verifier::external_body]
fn context_new() -> (context: md5::Context)
    ensures
        consumed(context) == Seq::<u8>::empty(),
{
    md5::Context::new()
}

/// `md5::Context::consume`: feeds `data` to the context, after what it was
/// fed before.
#[verifier::external_body]
fn context_consume(context: &mut md5::Context, data: &[u8])
    ensures
        consumed(*final(context)) == consumed(*old(context)) + data@,
{
    context.consume(data)
}

/// `md5::Context::finalize`: the 16 bytes of the digest of all that the
/// context was fed.
#[verifier::external_body]
fn context_finalize(context: md5::Context) -> (digest: [u8; 16])
    ensures
        digest@ == md5_digest(consumed(context)),
{
    context.finalize().0
}

/// A digest in progress over the blocks of a file.
pub struct Checksum {
    context: md5::Context,
}

impl View for Checksum {
    type V = Seq<u8>;

    /// The bytes fed so far.
    closed spec fn view(&self) -> Seq<u8> {
        consumed(self.context)
    }
}

/// The digest of `data` as it is compared and shown: in base sixteen, in
/// lower case.
pub open spec fn md5_hex(data: Seq<u8>) -> Seq<char> {
    hex_lower(md5_digest(data))
}

/// Whether a file with the bytes `data` passes verification against the
/// digest `expected`. No expected digest means there is nothing to check,
/// and the file passes. Digests are compared as hexadecimal text, whatever
/// the case of the letters.
pub open spec fn passes(expected: Option<Seq<char>>, data: Seq<u8>) -> bool {
    match expected {
        Some(digest) => eq_ignore_case(md5_hex(data), digest),
        None => true,
    }
}

impl Checksum {
    /// A digest over no bytes yet.
    pub fn new() -> (checksum: Self)
        ensures
            checksum@ == Seq::<u8>::empty(),
    {
        Checksum { context: context_new() }
    }

    /// Feeds the next block of the file.
    pub fn update(&mut self, block: &[u8])
        ensures
            final(self)@ == old(self)@ + block@,
    {
        context_consume(&mut self.context, block)
    }

    /// The digest of all blocks fed, in hexadecimal.
    pub fn hex_digest(self) -> (hex: String)
        ensures
            hex@ == md5_hex(self@),
    {
        let digest = context_finalize(self.context);
        to_hex_lower(digest.as_slice())
    }

    /// Whether the digest of all blocks fed is `expected`, a digest in
    /// hexadecimal of either case.
    pub fn matches(self, expected: &str) -> (same: bool)
        ensures
            same == passes(Some(expected@), self@),
    {
        let computed = self.hex_digest();
        eq_ignore_ascii_case(computed.as_str(), expected)
    }
}

/// The digest of `data` in hexadecimal.
pub fn md5_hex_of(data: &[u8]) -> (hex: String)
    ensures
        hex@ == md5_hex(data@),
{
    let mut checksum = Checksum::new();
    checksum.update(data);
    checksum.hex_digest()
}

} // verus!
