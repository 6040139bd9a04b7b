//! Conditional-request logic: how a store lookup is turned into a
//! protocol-facing result.
//!
//! A metadata probe reports the stored version token or absence. A full read
//! short-circuits to "not modified" when the caller's previously seen token
//! matches the record's current token exactly; otherwise it carries the
//! payload and the current token. A write is rejected before touching
//! storage when the content-kind marker is wrong or the payload exceeds the
//! configured size ceiling.

use vstd::prelude::*;
use vstd::string::StringExecFns;

use crate::decimal::spec_dec_i64;
use crate::keying::checksum_of;
use crate::store::RecordView;
use crate::store::SettingsStore;

verus! {

/// The content-kind marker a write must carry: raw binary.
pub open spec fn required_content_type() -> Seq<char> {
    "application/octet-stream"@
}

/// Returns the required content-kind marker, `application/octet-stream`.
pub fn required_content_type_str() -> (r: &'static str)
    ensures
        r@ == required_content_type(),
{
    "application/octet-stream"
}

/// The result of a metadata probe.
pub enum HeadOutcome {
    /// A record exists; its version token is reported.
    Found { etag: String },
    /// Nothing is stored under the key.
    NotFound,
}

/// The result of a conditional full read.
pub enum GetOutcome {
    /// A record exists and the caller's token (if any) does not match.
    Payload { body: Vec<u8>, etag: String },
    /// A record exists and the caller's token matches it exactly.
    NotModified,
    /// Nothing is stored under the key.
    NotFound,
}

/// The reason a write was rejected before any storage call.
pub enum PutRejection {
    /// The content-kind marker was missing or not the required one.
    UnsupportedMediaType,
    /// The payload exceeds the size ceiling.
    PayloadTooLarge,
}

/// The result of a guarded write.
pub enum PutOutcome {
    /// The write went through; the new version token is reported.
    Written { timestamp: i64 },
    /// Rejected: wrong or missing content-kind marker; storage untouched.
    UnsupportedMediaType,
    /// Rejected: payload over the size ceiling; storage untouched.
    PayloadTooLarge,
}

/// The mathematical content of a [`GetOutcome`].
pub ghost enum GetView {
    Payload { body: Seq<u8>, etag: Seq<char> },
    NotModified,
    NotFound,
}

impl View for GetOutcome {
    type V = GetView;

    open spec fn view(&self) -> GetView {
        match self {
            GetOutcome::Payload { body, etag } => GetView::Payload {
                body: body@,
                etag: etag@,
            },
            GetOutcome::NotModified => GetView::NotModified,
            GetOutcome::NotFound => GetView::NotFound,
        }
    }
}

/// What a conditional full read of state `m` for identifier `u` must
/// produce, given the caller's previously seen token.
pub open spec fn spec_get_response(
    m: Map<u32, RecordView>,
    u: Seq<char>,
    if_none_match: Option<Seq<char>>,
) -> GetView {
    let k = checksum_of(u);
    if !m.contains_key(k) {
        GetView::NotFound
    } else {
        let tok = spec_dec_i64(m[k].updated_at);
        if if_none_match matches Some(t) && t == tok {
            GetView::NotModified
        } else {
            GetView::Payload { body: m[k].payload, etag: tok }
        }
    }
}

/// What a metadata probe of state `m` for identifier `u` must report: the
/// version token of the record, or absence.
pub open spec fn spec_head_response(m: Map<u32, RecordView>, u: Seq<char>) -> Option<Seq<char>> {
    let k = checksum_of(u);
    if m.contains_key(k) {
        Some(spec_dec_i64(m[k].updated_at))
    } else {
        None
    }
}

/// The validation a write must pass before storage is touched: the
/// content-kind marker must be exactly the required one, and the payload
/// must not exceed the size ceiling. The marker is checked first.
pub open spec fn spec_put_check(
    content_type: Option<Seq<char>>,
    len: nat,
    limit: nat,
) -> Option<PutRejection> {
    if !(content_type matches Some(ct) && ct == required_content_type()) {
        Some(PutRejection::UnsupportedMediaType)
    } else if len > limit {
        Some(PutRejection::PayloadTooLarge)
    } else {
        None
    }
}

/// The view of an optionally supplied header value.
pub open spec fn opt_view(s: Option<&String>) -> Option<Seq<char>> {
    match s {
        Some(t) => Some(t@),
        None => None,
    }
}

/// Decides a conditional full read from the raw lookup result: the record
/// and token as stored (or absence), and the caller's previously seen token.
pub fn decide_get(record: Option<(Vec<u8>, String)>, if_none_match: Option<&String>) -> (r:
    GetOutcome)
    ensures
        match record {
            None => r@ == GetView::NotFound,
            Some(pt) => {
                if if_none_match matches Some(t) && t@ == pt.1@ {
                    r@ == GetView::NotModified
                } else {
                    r@ == (GetView::Payload { body: pt.0@, etag: pt.1@ })
                }
            },
        },
{
    match record {
        None => GetOutcome::NotFound,
        Some((body, etag)) => {
            let matches_token = match if_none_match {
                Some(t) => *t == etag,
                None => false,
            };
            if matches_token {
                GetOutcome::NotModified
            } else {
                GetOutcome::Payload { body, etag }
            }
        },
    }
}

/// Decides a metadata probe from the raw lookup result.
pub fn decide_head(meta: Option<String>) -> (r: HeadOutcome)
    ensures
        match meta {
            Some(t) => r matches HeadOutcome::Found { etag } && etag@ == t@,
            None => r matches HeadOutcome::NotFound,
        },
{
    match meta {
        Some(t) => HeadOutcome::Found { etag: t },
        None => HeadOutcome::NotFound,
    }
}

/// Validates a write before any storage call: wrong or missing content-kind
/// marker first, then the size ceiling.
pub fn check_put(content_type: Option<&String>, body_len: usize, size_limit: usize) -> (r:
    Option<PutRejection>)
    ensures
        r == spec_put_check(opt_view(content_type), body_len as nat, size_limit as nat),
{
    proof {
        reveal_strlit("application/octet-stream");
    }
    let marker_ok = match content_type {
        Some(ct) => {
            let required = String::from_str(required_content_type_str());
            *ct == required
        },
        None => false,
    };
    if !marker_ok {
        Some(PutRejection::UnsupportedMediaType)
    } else if body_len > size_limit {
        Some(PutRejection::PayloadTooLarge)
    } else {
        None
    }
}

/// A conditional full read against the store: combines the lookup with the
/// token comparison.
pub fn get_settings_response(
    store: &SettingsStore,
    user_id: &str,
    if_none_match: Option<&String>,
) -> (r: GetOutcome)
    requires
        store.wf(),
        user_id@.len() > 0,
    ensures
        r@ == spec_get_response(store@, user_id@, opt_view(if_none_match)),
{
    let record = store.get_user_settings(user_id);
    decide_get(record, if_none_match)
}

/// A metadata probe against the store.
pub fn head_settings_response(store: &SettingsStore, user_id: &str) -> (r: HeadOutcome)
    requires
        store.wf(),
        user_id@.len() > 0,
    ensures
        match spec_head_response(store@, user_id@) {
            Some(tok) => r matches HeadOutcome::Found { etag } && etag@ == tok,
            None => r matches HeadOutcome::NotFound,
        },
{
    let meta = store.get_settings_metadata(user_id);
    decide_head(meta)
}

/// A guarded write at an explicit timestamp: validation first, storage only
/// when the write is accepted. A rejected write leaves the store unchanged.
pub fn put_settings_response_at(
    store: &mut SettingsStore,
    user_id: &str,
    content_type: Option<&String>,
    body: Vec<u8>,
    size_limit: usize,
    now: i64,
) -> (r: PutOutcome)
    requires
        old(store).wf(),
        user_id@.len() > 0,
    ensures
        final(store).wf(),
        match spec_put_check(opt_view(content_type), body@.len(), size_limit as nat) {
            Some(PutRejection::UnsupportedMediaType) => r matches PutOutcome::UnsupportedMediaType
                && final(store)@ == old(store)@,
            Some(PutRejection::PayloadTooLarge) => r matches PutOutcome::PayloadTooLarge
                && final(store)@ == old(store)@,
            None => (r matches PutOutcome::Written { timestamp } && timestamp == now)
                && final(store)@ == old(store)@.insert(
                checksum_of(user_id@),
                RecordView { payload: body@, created_at: now as int, updated_at: now as int },
            ),
        },
{
    match check_put(content_type, body.len(), size_limit) {
        Some(PutRejection::UnsupportedMediaType) => PutOutcome::UnsupportedMediaType,
        Some(PutRejection::PayloadTooLarge) => PutOutcome::PayloadTooLarge,
        None => {
            let written = store.save_user_settings_at(user_id, body, now);
            PutOutcome::Written { timestamp: written }
        },
    }
}

/// A guarded write stamped at the current wall-clock time: validation first,
/// storage only when the write is accepted.
pub fn put_settings_response(
    store: &mut SettingsStore,
    user_id: &str,
    content_type: Option<&String>,
    body: Vec<u8>,
    size_limit: usize,
) -> (r: PutOutcome)
    requires
        old(store).wf(),
        user_id@.len() > 0,
    ensures
        final(store).wf(),
        match spec_put_check(opt_view(content_type), body@.len(), size_limit as nat) {
            Some(PutRejection::UnsupportedMediaType) => r matches PutOutcome::UnsupportedMediaType
                && final(store)@ == old(store)@,
            Some(PutRejection::PayloadTooLarge) => r matches PutOutcome::PayloadTooLarge
                && final(store)@ == old(store)@,
            None => r matches PutOutcome::Written { timestamp }
                && final(store)@ == old(store)@.insert(
                checksum_of(user_id@),
                RecordView {
                    payload: body@,
                    created_at: timestamp as int,
                    updated_at: timestamp as int,
                },
            ),
        },
{
    match check_put(content_type, body.len(), size_limit) {
        Some(PutRejection::UnsupportedMediaType) => PutOutcome::UnsupportedMediaType,
        Some(PutRejection::PayloadTooLarge) => PutOutcome::PayloadTooLarge,
        None => {
            let written = store.save_user_settings(user_id, body);
            PutOutcome::Written { timestamp: written }
        },
    }
}

} // verus!
