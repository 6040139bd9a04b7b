//! The storage contract's laws, stated and proved against the same models
//! that the executable functions' contracts use: the table as a map from
//! storage key to record, reads as map lookups, writes as insertions and
//! deletes as removals. Key derivation's determinism is stated beside the
//! derivation itself in [`crate::keying`].

use vstd::prelude::*;

use crate::decimal::spec_dec_i64;
use crate::keying::checksum_of;
use crate::protocol::required_content_type;
use crate::protocol::spec_get_response;
use crate::protocol::spec_put_check;
use crate::protocol::GetView;
use crate::protocol::PutRejection;
use crate::store::RecordView;

verus! {

/// The record a write of payload `p` at time `t` produces: both timestamps
/// stamped with the write time.
pub open spec fn written_record(p: Seq<u8>, t: int) -> RecordView {
    RecordView { payload: p, created_at: t, updated_at: t }
}

/// Round trip: a write of payload `p` at time `t` for identifier `u`,
/// followed by a read of `u`, finds a record whose payload is exactly `p`
/// and whose version token is `t` — the timestamp the write reported.
pub proof fn lemma_round_trip(m: Map<u32, RecordView>, u: Seq<char>, p: Seq<u8>, t: int)
    ensures
        ({
            let m2 = m.insert(checksum_of(u), written_record(p, t));
            &&& m2.contains_key(checksum_of(u))
            &&& m2[checksum_of(u)].payload == p
            &&& m2[checksum_of(u)].updated_at == t
        }),
{
}

/// Idempotent delete, absent case: deleting an identifier with no record
/// succeeds and leaves the state exactly as it was.
pub proof fn lemma_delete_absent(m: Map<u32, RecordView>, u: Seq<char>)
    requires
        !m.contains_key(checksum_of(u)),
    ensures
        m.remove(checksum_of(u)) == m,
{
    assert(m.remove(checksum_of(u)) =~= m);
}

/// Idempotent delete, present case: deleting after a write removes the
/// record, so a subsequent read of the same identifier reports absence.
pub proof fn lemma_delete_after_save(m: Map<u32, RecordView>, u: Seq<char>, p: Seq<u8>, t: int)
    ensures
        !m.insert(checksum_of(u), written_record(p, t)).remove(checksum_of(u)).contains_key(
            checksum_of(u),
        ),
{
}

/// Conditional read: after a write at time `t`, a read presenting exactly
/// the write's version token is "not modified" and carries no payload; a
/// read presenting any other token, or none, carries the payload and that
/// token.
pub proof fn lemma_conditional_read(
    m: Map<u32, RecordView>,
    u: Seq<char>,
    p: Seq<u8>,
    t: int,
    tok: Seq<char>,
)
    ensures
        ({
            let m2 = m.insert(checksum_of(u), written_record(p, t));
            &&& tok == spec_dec_i64(t) ==> spec_get_response(m2, u, Some(tok))
                == GetView::NotModified
            &&& tok != spec_dec_i64(t) ==> spec_get_response(m2, u, Some(tok)) == (
            GetView::Payload { body: p, etag: spec_dec_i64(t) })
            &&& spec_get_response(m2, u, None) == (GetView::Payload {
                body: p,
                etag: spec_dec_i64(t),
            })
        }),
{
}

/// Overwrite: a second write to the same identifier leaves only the second
/// payload retrievable, and when the second write is later in time the
/// record's version token strictly increases.
pub proof fn lemma_overwrite(
    m: Map<u32, RecordView>,
    u: Seq<char>,
    p1: Seq<u8>,
    t1: int,
    p2: Seq<u8>,
    t2: int,
)
    ensures
        ({
            let m2 = m.insert(checksum_of(u), written_record(p1, t1)).insert(
                checksum_of(u),
                written_record(p2, t2),
            );
            &&& m2[checksum_of(u)].payload == p2
            &&& m2[checksum_of(u)].updated_at == t2
            &&& t1 < t2 ==> m2[checksum_of(u)].updated_at > t1
        }),
{
}

/// Size ceiling: a write whose payload is exactly at the ceiling passes
/// validation, and one byte over is rejected as too large. That a rejected
/// write leaves storage untouched is part of the write functions' own
/// contracts.
pub proof fn lemma_size_ceiling(limit: nat)
    ensures
        spec_put_check(Some(required_content_type()), limit, limit) == None::<PutRejection>,
        spec_put_check(Some(required_content_type()), limit + 1, limit) == Some(
            PutRejection::PayloadTooLarge,
        ),
{
}

/// Content-kind check: a write whose marker is missing or differs from the
/// required one is rejected before any storage call, whatever its size.
pub proof fn lemma_content_kind(ct: Option<Seq<char>>, len: nat, limit: nat)
    requires
        !(ct matches Some(c) && c == required_content_type()),
    ensures
        spec_put_check(ct, len, limit) == Some(PutRejection::UnsupportedMediaType),
{
}

} // verus!
