//! Content fingerprints.

use vstd::prelude::*;
use vstd::utf8::encode_utf8;
use crate::media_type::MediaType;

verus! {

/// The BLAKE3 digest of a byte sequence, as `blake3::hash` computes it.
pub uninterp spec fn blake3_of(data: Seq<u8>) -> Seq<u8>;

/// Calls `blake3::hash`. Trusted: the digest is the named value
/// `blake3_of(data)` and is 32 bytes long, as the crate documents.
#[verifier::external_body]
fn blake3_hash(data: &[u8]) -> (r: [u8; 32])
    ensures
        r@ == blake3_of(data@),
{
    *blake3::hash(data).as_bytes()
}

/// A fingerprint of a media type and content.
#[derive(Debug, Clone, Copy)]
pub struct ETag([u8; 32]);

impl View for ETag {
    type V = Seq<u8>;

    closed spec fn view(&self) -> Seq<u8> {
        self.0@
    }
}

impl ETag {
    /// The bytes hashed for a media type and content: the MIME name, `::`,
    /// then the content. (Hashing them in pieces, as an incremental hasher
    /// does, gives the same digest.)
    pub open spec fn hashed_spec(media_type: MediaType, content: Seq<u8>) -> Seq<u8> {
        encode_utf8(media_type.mime_spec()) + seq![58u8, 58u8] + content
    }

    /// The fingerprint of text content.
    pub fn new(media_type: MediaType, content: &str) -> (e: Self)
        ensures
            e@ == blake3_of(ETag::hashed_spec(media_type, encode_utf8(content@))),
    {
        Self::from_bytes(media_type, content.as_bytes())
    }

    /// The fingerprint of byte content.
    pub fn from_bytes(media_type: MediaType, content: &[u8]) -> (e: Self)
        ensures
            e@ == blake3_of(ETag::hashed_spec(media_type, content@)),
    {
        let mut data: Vec<u8> = vstd::slice::slice_to_vec(media_type.as_mime_str().as_bytes());
        data.push(58u8);
        data.push(58u8);
        let mut i: usize = 0;
        let ghost start = data@;
        while i < content.len()
            invariant
                i <= content@.len(),
                data@ == start + content@.subrange(0, i as int),
            decreases content@.len() - i,
        {
            data.push(content[i]);
            proof {
                assert(content@.subrange(0, i + 1) =~= content@.subrange(0, i as int).push(content@[i as int]));
            }
            i = i + 1;
        }
        proof {
            assert(content@.subrange(0, content@.len() as int) =~= content@);
            assert(data@ =~= ETag::hashed_spec(media_type, content@));
        }
        ETag(blake3_hash(data.as_slice()))
    }

    pub fn as_bytes(&self) -> (b: &[u8; 32])
        ensures
            b@ == self@,
    {
        &self.0
    }
}

} // verus!
