use vstd::prelude::*;
use vstd::string::StringSliceAdditionalSpecFns;
use vstd::utf8::encode_utf8;

verus! {

/// The CRC-32 checksum that `crc32fast::hash` computes of a byte sequence.
pub uninterp spec fn crc32_of(bytes: Seq<u8>) -> u32;

/// `crc32fast::hash` feeds the whole buffer to a fresh hasher and finalizes it.
/// The checksum depends on the bytes alone, so it is given the name `crc32_of`;
/// nothing more is claimed of its value.
pub assume_specification[ crc32fast::hash ](buf: &[u8]) -> (h: u32)
    ensures
        h == crc32_of(buf@),
;

/// The cached hash of a name: the checksum of its UTF-8 encoding.
pub open spec fn name_hash_of(name: Seq<char>) -> u32 {
    crc32_of(encode_utf8(name))
}

/// Computes the cached hash of a name.
pub fn name_hash(name: &str) -> (h: u32)
    ensures
        h == name_hash_of(name@),
{
    crc32fast::hash(name.as_bytes())
}

} // verus!
