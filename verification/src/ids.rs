//! Task and version identifiers: 128-bit numbers, written as 16 big-endian bytes where
//! they are stored.

use crate::bytes::{
    be_bytes, be_value, lemma_be_bytes_len, lemma_be_bytes_of_value, lemma_be_value_of_bytes,
    lemma_pow256_limits, push_be, read_be,
};
use vstd::prelude::*;

verus! {

/// The identity of a task: a 128-bit number, unique among the tasks of a replica.
pub type Uuid = u128;

/// The identity of a version of the task database on the sync server.
pub type VersionId = Uuid;

/// The base version of a replica that has never synced: the all-zero identifier.
pub const DEFAULT_BASE_VERSION: VersionId = 0;

/// The 16 bytes of an identifier, the most significant first.
pub open spec fn uuid_bytes(uuid: Uuid) -> Seq<u8> {
    be_bytes(uuid as nat, 16)
}

/// The identifier that 16 bytes spell; none for any other length.
pub open spec fn uuid_of_bytes(bytes: Seq<u8>) -> Option<Uuid> {
    if bytes.len() == 16 {
        Some(be_value(bytes) as u128)
    } else {
        None
    }
}

/// Writes an identifier as 16 bytes, the most significant first.
pub fn uuid_to_bytes(uuid: Uuid) -> (r: Vec<u8>)
    ensures
        r@ == uuid_bytes(uuid),
{
    let mut out: Vec<u8> = Vec::new();
    push_be(&mut out, uuid, 16);
    assert(out@ =~= uuid_bytes(uuid));
    out
}

/// Reads an identifier from exactly 16 bytes.
pub fn uuid_from_bytes(bytes: &Vec<u8>) -> (r: Option<Uuid>)
    ensures
        r == uuid_of_bytes(bytes@),
{
    if bytes.len() == 16 {
        let value: u128 = read_be(bytes, 0, 16);
        assert(bytes@.subrange(0, 16) =~= bytes@);
        Some(value)
    } else {
        None
    }
}

/// Reading the bytes of an identifier gives the identifier back.
pub proof fn lemma_uuid_bytes_round_trip(uuid: Uuid)
    ensures
        uuid_bytes(uuid).len() == 16,
        uuid_of_bytes(uuid_bytes(uuid)) == Some(uuid),
{
    lemma_be_bytes_len(uuid as nat, 16);
    lemma_pow256_limits();
    lemma_be_value_of_bytes(uuid as nat, 16);
}

/// Any 16 bytes are the bytes of the identifier they spell, so no two byte strings spell
/// the same identifier.
pub proof fn lemma_uuid_of_bytes_unique(bytes: Seq<u8>)
    requires
        bytes.len() == 16,
    ensures
        uuid_of_bytes(bytes) matches Some(u) && uuid_bytes(u) == bytes,
{
    lemma_be_bytes_of_value(bytes);
    lemma_pow256_limits();
}

} // verus!
