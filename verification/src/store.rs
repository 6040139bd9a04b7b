//! The settings store: a table of per-user settings records with overwrite
//! (upsert) semantics, metadata-only lookup, full read and idempotent delete.
//!
//! Rows are indexed by the 32-bit checksum of the user identifier (the
//! rendered form `settings:<checksum>` used by a backing table is available
//! through [`crate::keying::derive_key`] and is injectively determined by the
//! checksum). At most one record exists per key at any time; a write
//! overwrites the whole record and stamps both `created_at` and `updated_at`
//! with the write time. The true creation time is therefore not preserved
//! across overwrites: the service deliberately resets it on every save, and
//! the contracts here state that behaviour rather than correct it.

use vstd::prelude::*;

use crate::decimal::i64_to_dec;
use crate::decimal::spec_dec_i64;
use crate::keying::checksum;
use crate::keying::checksum_of;

verus! {

/// The mathematical content of one stored record.
pub ghost struct RecordView {
    /// The opaque settings blob.
    pub payload: Seq<u8>,
    /// Millisecond timestamp stamped at the write that produced the record.
    pub created_at: int,
    /// Millisecond timestamp of the last write; doubles as the version token.
    pub updated_at: int,
}

struct Row {
    key: u32,
    payload: Vec<u8>,
    created_at: i64,
    updated_at: i64,
}

spec fn row_view(r: Row) -> RecordView {
    RecordView {
        payload: r.payload@,
        created_at: r.created_at as int,
        updated_at: r.updated_at as int,
    }
}

spec fn unique_keys(rows: Seq<Row>) -> bool {
    forall|i: int, j: int| 0 <= i < j < rows.len() ==> rows[i].key != rows[j].key
}

spec fn has_key(rows: Seq<Row>, k: u32) -> bool {
    exists|i: int| 0 <= i < rows.len() && rows[i].key == k
}

spec fn index_of(rows: Seq<Row>, k: u32) -> int {
    choose|i: int| 0 <= i < rows.len() && rows[i].key == k
}

spec fn table(rows: Seq<Row>) -> Map<u32, RecordView> {
    Map::new(|k: u32| has_key(rows, k), |k: u32| row_view(rows[index_of(rows, k)]))
}

/// An in-memory settings table with the storage contract of the service's
/// backing store: one record per key, upsert writes, idempotent delete.
pub struct SettingsStore {
    rows: Vec<Row>,
}

proof fn lemma_key_at(rows: Seq<Row>, i: int)
    requires
        unique_keys(rows),
        0 <= i < rows.len(),
    ensures
        has_key(rows, rows[i].key),
        index_of(rows, rows[i].key) == i,
        table(rows).contains_key(rows[i].key),
        table(rows)[rows[i].key] == row_view(rows[i]),
{
    let k = rows[i].key;
    assert(has_key(rows, k));
    let j = index_of(rows, k);
    assert(0 <= j < rows.len() && rows[j].key == k);
    if j < i {
        assert(rows[j].key != rows[i].key);
    } else if i < j {
        assert(rows[i].key != rows[j].key);
    }
}

proof fn lemma_push(rows: Seq<Row>, r: Row)
    requires
        unique_keys(rows),
        !has_key(rows, r.key),
    ensures
        unique_keys(rows.push(r)),
        table(rows.push(r)) == table(rows).insert(r.key, row_view(r)),
{
    let rows2 = rows.push(r);
    let n = rows.len() as int;
    assert forall|i: int, j: int| 0 <= i < j < rows2.len() implies rows2[i].key
        != rows2[j].key by {
        if j == n {
            assert(rows2[i] == rows[i]);
            assert(rows2[j] == r);
            if rows[i].key == r.key {
                assert(has_key(rows, r.key));
            }
        } else {
            assert(rows2[i] == rows[i]);
            assert(rows2[j] == rows[j]);
        }
    };
    let m1 = table(rows2);
    let m2 = table(rows).insert(r.key, row_view(r));
    assert forall|k: u32| m1.contains_key(k) implies m2.contains_key(k) && m1[k] == m2[k] by {
        if k == r.key {
            assert(rows2[n] == r);
            lemma_key_at(rows2, n);
        } else {
            let j = index_of(rows2, k);
            assert(0 <= j < rows2.len() && rows2[j].key == k);
            assert(j < n);
            assert(rows2[j] == rows[j]);
            assert(has_key(rows, k));
            lemma_key_at(rows, j);
            lemma_key_at(rows2, j);
        }
    };
    assert forall|k: u32| m2.contains_key(k) implies m1.contains_key(k) by {
        if k == r.key {
            assert(rows2[n] == r);
            assert(has_key(rows2, k));
        } else {
            let j = index_of(rows, k);
            assert(0 <= j < rows.len() && rows[j].key == k);
            assert(rows2[j] == rows[j]);
            assert(has_key(rows2, k));
        }
    };
    assert(m1 =~= m2);
}

proof fn lemma_remove(rows: Seq<Row>, i: int)
    requires
        unique_keys(rows),
        0 <= i < rows.len(),
    ensures
        unique_keys(rows.remove(i)),
        !has_key(rows.remove(i), rows[i].key),
        table(rows.remove(i)) == table(rows).remove(rows[i].key),
{
    let rows2 = rows.remove(i);
    let n = rows.len() as int;
    let k0 = rows[i].key;
    assert(rows2.len() == n - 1);
    assert forall|j: int| 0 <= j < n - 1 implies rows2[j] == (if j < i {
        rows[j]
    } else {
        rows[j + 1]
    }) by {};
    assert forall|a: int, b: int| 0 <= a < b < rows2.len() implies rows2[a].key
        != rows2[b].key by {
        let a0 = if a < i { a } else { a + 1 };
        let b0 = if b < i { b } else { b + 1 };
        assert(rows2[a] == rows[a0]);
        assert(rows2[b] == rows[b0]);
        assert(a0 < b0);
        assert(rows[a0].key != rows[b0].key);
    };
    assert forall|j: int| 0 <= j < rows2.len() implies rows2[j].key != k0 by {
        let j0 = if j < i { j } else { j + 1 };
        assert(rows2[j] == rows[j0]);
        if j0 < i {
            assert(rows[j0].key != rows[i].key);
        } else {
            assert(rows[i].key != rows[j0].key);
        }
    };
    assert(!has_key(rows2, k0));
    let m1 = table(rows2);
    let m2 = table(rows).remove(k0);
    assert forall|k: u32| m1.contains_key(k) implies m2.contains_key(k) && m1[k] == m2[k] by {
        let j = index_of(rows2, k);
        assert(0 <= j < rows2.len() && rows2[j].key == k);
        let j0 = if j < i { j } else { j + 1 };
        assert(rows2[j] == rows[j0]);
        assert(has_key(rows, k));
        lemma_key_at(rows, j0);
        lemma_key_at(rows2, j);
        assert(k != k0);
    };
    assert forall|k: u32| m2.contains_key(k) implies m1.contains_key(k) by {
        assert(has_key(rows, k) && k != k0);
        let j0 = index_of(rows, k);
        assert(0 <= j0 < rows.len() && rows[j0].key == k);
        assert(j0 != i);
        let j = if j0 < i { j0 } else { j0 - 1 };
        assert(rows2[j] == rows[j0]);
        assert(has_key(rows2, k));
    };
    assert(m1 =~= m2);
}

/// Copies a byte blob.
fn copy_bytes(src: &Vec<u8>) -> (r: Vec<u8>)
    ensures
        r@ == src@,
{
    let mut out: Vec<u8> = Vec::new();
    let mut i: usize = 0;
    while i < src.len()
        invariant
            i <= src@.len(),
            out@ == src@.subrange(0, i as int),
        decreases src@.len() - i,
    {
        out.push(src[i]);
        i += 1;
    }
    proof {
        assert(out@ =~= src@);
    }
    out
}

/// Relies on `chrono::Utc::now`: the current wall-clock time in milliseconds
/// since the Unix epoch. Nothing is assumed of the value — successive calls
/// may return any numbers — so callers state their guarantees relative to
/// the value actually returned.
#[verifier::external_body]
fn now_millis() -> i64 {
    chrono::Utc::now().timestamp_millis()
}

impl SettingsStore {
    /// Well-formedness: at most one record exists per storage key.
    pub closed spec fn wf(self) -> bool {
        unique_keys(self.rows@)
    }

    /// Creates an empty store: nothing is retrievable for any key.
    pub fn new() -> (r: SettingsStore)
        ensures
            r.wf(),
            r@ == Map::<u32, RecordView>::empty(),
    {
        let r = SettingsStore { rows: Vec::new() };
        proof {
            assert(r@ =~= Map::<u32, RecordView>::empty());
        }
        r
    }

    fn find(&self, key: u32) -> (r: Option<usize>)
        ensures
            match r {
                Some(i) => i < self.rows@.len() && self.rows@[i as int].key == key,
                None => !has_key(self.rows@, key),
            },
    {
        let mut i: usize = 0;
        while i < self.rows.len()
            invariant
                i <= self.rows@.len(),
                forall|j: int| 0 <= j < i ==> self.rows@[j].key != key,
            decreases self.rows@.len() - i,
        {
            if self.rows[i].key == key {
                return Some(i);
            }
            i += 1;
        }
        None
    }

    /// Metadata-only lookup: reports the stored record's version token (its
    /// `updated_at` timestamp, rendered in decimal) without transferring the
    /// payload, or absence when nothing is stored under the identifier's key.
    pub fn get_settings_metadata(&self, user_id: &str) -> (r: Option<String>)
        requires
            self.wf(),
            user_id@.len() > 0,
        ensures
            match r {
                Some(t) => self@.contains_key(checksum_of(user_id@)) && t@ == spec_dec_i64(
                    self@[checksum_of(user_id@)].updated_at,
                ),
                None => !self@.contains_key(checksum_of(user_id@)),
            },
    {
        let h = checksum(user_id);
        match self.find(h) {
            Some(i) => {
                proof {
                    lemma_key_at(self.rows@, i as int);
                }
                Some(i64_to_dec(self.rows[i].updated_at))
            },
            None => None,
        }
    }

    /// Full read: returns the stored payload together with its version token
    /// (the `updated_at` timestamp rendered in decimal), or absence when
    /// nothing is stored under the identifier's key.
    pub fn get_user_settings(&self, user_id: &str) -> (r: Option<(Vec<u8>, String)>)
        requires
            self.wf(),
            user_id@.len() > 0,
        ensures
            match r {
                Some(pt) => self@.contains_key(checksum_of(user_id@)) && pt.0@
                    == self@[checksum_of(user_id@)].payload && pt.1@ == spec_dec_i64(
                    self@[checksum_of(user_id@)].updated_at,
                ),
                None => !self@.contains_key(checksum_of(user_id@)),
            },
    {
        let h = checksum(user_id);
        match self.find(h) {
            Some(i) => {
                proof {
                    lemma_key_at(self.rows@, i as int);
                }
                let payload = copy_bytes(&self.rows[i].payload);
                let token = i64_to_dec(self.rows[i].updated_at);
                Some((payload, token))
            },
            None => None,
        }
    }

    /// Upsert-write at an explicit timestamp: the record under the
    /// identifier's key — whether or not one existed — becomes the given
    /// payload, with both `created_at` and `updated_at` stamped to `now`.
    pub fn save_user_settings_at(&mut self, user_id: &str, settings: Vec<u8>, now: i64) -> (r:
        i64)
        requires
            old(self).wf(),
            user_id@.len() > 0,
        ensures
            final(self).wf(),
            final(self)@ == old(self)@.insert(
                checksum_of(user_id@),
                RecordView { payload: settings@, created_at: now as int, updated_at: now as int },
            ),
            r == now,
    {
        let h = checksum(user_id);
        let ghost m0 = self@;
        match self.find(h) {
            Some(i) => {
                proof {
                    lemma_remove(self.rows@, i as int);
                }
                let _removed = self.rows.remove(i);
            },
            None => {},
        }
        let row = Row { key: h, payload: settings, created_at: now, updated_at: now };
        proof {
            lemma_push(self.rows@, row);
        }
        self.rows.push(row);
        proof {
            assert(self@ =~= m0.insert(
                h,
                RecordView { payload: settings@, created_at: now as int, updated_at: now as int },
            ));
        }
        now
    }

    /// Upsert-write stamped at the current wall-clock time. The returned
    /// timestamp is the new version token; the record under the identifier's
    /// key becomes the given payload with both timestamps set to it.
    pub fn save_user_settings(&mut self, user_id: &str, settings: Vec<u8>) -> (r: i64)
        requires
            old(self).wf(),
            user_id@.len() > 0,
        ensures
            final(self).wf(),
            final(self)@ == old(self)@.insert(
                checksum_of(user_id@),
                RecordView { payload: settings@, created_at: r as int, updated_at: r as int },
            ),
    {
        let now = now_millis();
        self.save_user_settings_at(user_id, settings, now)
    }

    /// Idempotent delete: afterwards nothing is stored under the
    /// identifier's key, whether or not a record existed before.
    pub fn delete_user_settings(&mut self, user_id: &str)
        requires
            old(self).wf(),
            user_id@.len() > 0,
        ensures
            final(self).wf(),
            final(self)@ == old(self)@.remove(checksum_of(user_id@)),
    {
        let h = checksum(user_id);
        match self.find(h) {
            Some(i) => {
                proof {
                    lemma_remove(self.rows@, i as int);
                }
                let _removed = self.rows.remove(i);
            },
            None => {
                proof {
                    assert(self@ =~= self@.remove(h));
                }
            },
        }
    }
}

impl View for SettingsStore {
    type V = Map<u32, RecordView>;

    closed spec fn view(&self) -> Map<u32, RecordView> {
        table(self.rows@)
    }
}

} // verus!
