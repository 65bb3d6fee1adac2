//! Content digests and compression of saved states.
use sha1::{Digest, Sha1};
use vstd::prelude::*;

verus! {

/// The SHA-1 digest of `data`, as lower-case hexadecimal text.
pub uninterp spec fn sha1_hex_of(data: Seq<u8>) -> Seq<char>;

/// Relies on sha1::Sha1 (new, update, finalize) and the lower-hex formatting
/// of its digest: the text depends on the bytes alone.
#[verifier::external_body]
fn sha1_hex(data: &[u8]) -> (r: String)
    ensures
        r@ == sha1_hex_of(data@),
{
    let mut hasher = Sha1::new();
    hasher.update(data);
    format!("{:x}", hasher.finalize())
}

/// The identity of a ROM image: the SHA-1 of its bytes.
pub fn hash_rom(data: &[u8]) -> (r: String)
    ensures
        r@ == sha1_hex_of(data@),
{
    sha1_hex(data)
}

/// An SNES image carries a 512-byte copier header when its length is 512
/// more than a multiple of 1024 (and more than the header alone).
pub open spec fn has_copier_header(len: nat) -> bool {
    len > 512 && len % 1024 == 512
}

/// The identity of an SNES image with its copier header removed, when it has
/// one.
pub fn hash_rom_without_snes_header(data: &[u8]) -> (r: Option<String>)
    ensures
        has_copier_header(data@.len()) ==> (r matches Some(h) && h@ == sha1_hex_of(
            data@.subrange(512, data@.len() as int),
        )),
        !has_copier_header(data@.len()) ==> r is None,
{
    if data.len() <= 512 || data.len() % 1024 != 512 {
        return None;
    }
    let body = vstd::slice::slice_subrange(data, 512, data.len());
    Some(sha1_hex(body))
}

/// What zstd makes of a compressed stream: the decoded bytes, or nothing
/// when the stream is not valid.
pub uninterp spec fn zstd_decoded(data: Seq<u8>) -> Option<Seq<u8>>;

/// The zstd stream, at compression level 3, of `data`.
pub uninterp spec fn zstd_encoded_level3(data: Seq<u8>) -> Option<Seq<u8>>;

/// Relies on zstd::stream::decode_all: decodes a whole in-memory stream; the
/// outcome depends on the bytes alone. A failure keeps its message.
#[verifier::external_body]
pub(crate) fn zstd_decode(data: &[u8]) -> (r: Result<Vec<u8>, String>)
    ensures
        r is Ok <==> zstd_decoded(data@) is Some,
        r matches Ok(v) ==> zstd_decoded(data@) == Some(v@),
{
    zstd::stream::decode_all(data).map_err(|e| e.to_string())
}

/// Relies on zstd::stream::encode_all at level 3: encodes a whole in-memory
/// buffer; the outcome depends on the bytes alone. A failure keeps its
/// message.
#[verifier::external_body]
pub(crate) fn zstd_encode(data: &[u8]) -> (r: Result<Vec<u8>, String>)
    ensures
        r is Ok <==> zstd_encoded_level3(data@) is Some,
        r matches Ok(v) ==> zstd_encoded_level3(data@) == Some(v@),
{
    zstd::stream::encode_all(data, 3).map_err(|e| e.to_string())
}

} // verus!
