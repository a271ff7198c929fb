//! Extraction of engine-owned, pointer-terminated string arrays.
//!
//! The engine returns result-set and vector names as a C array of string
//! pointers whose only termination signal is the first null pointer: no
//! length field exists. The unverified boundary shell materializes the raw
//! entries as `Option<Vec<u8>>` values (`None` standing for a null pointer);
//! this module owns the logic: take exactly the entries before the first
//! null, in engine order, and decode each one.

use crate::NgSpiceError;
use crate::text::decode_c_bytes;
use vstd::prelude::*;
use vstd::utf8::{decode_utf8, valid_utf8};

verus! {

/// Number of entries before the first null entry (the whole sequence when no
/// entry is null).
pub open spec fn scan_len(entries: Seq<Option<Vec<u8>>>) -> int
    decreases entries.len(),
{
    if entries.len() == 0 {
        0
    } else if entries[0] is None {
        0
    } else {
        1 + scan_len(entries.skip(1))
    }
}

/// `scan_len` is exactly the position of the first null entry: every earlier
/// entry is non-null and, when it lies inside the sequence, the entry there
/// is null.
pub proof fn lemma_scan_len_is_first_null(entries: Seq<Option<Vec<u8>>>, n: int)
    requires
        0 <= n <= entries.len(),
        forall|k: int| 0 <= k < n ==> entries[k] is Some,
        n < entries.len() ==> entries[n] is None,
    ensures
        scan_len(entries) == n,
    decreases n,
{
    if n == 0 {
    } else {
        assert(entries[0] is Some);
        let rest = entries.skip(1);
        assert forall|k: int| 0 <= k < n - 1 implies rest[k] is Some by {
            assert(rest[k] == entries[k + 1]);
        }
        if n - 1 < rest.len() {
            assert(rest[n - 1] == entries[n]);
        }
        lemma_scan_len_is_first_null(rest, n - 1);
    }
}

/// Decode a materialized pointer-terminated array: stop exactly at the first
/// null entry, preserve the engine-reported order, and decode every entry
/// before it. A single undecodable entry aborts the whole query with
/// `EncodingError`; entries at and after the first null are never touched.
pub fn decode_string_array(entries: &Vec<Option<Vec<u8>>>) -> (r: Result<
    Vec<String>,
    NgSpiceError,
>)
    ensures
        r is Ok <==> (forall|k: int|
            0 <= k < scan_len(entries@) ==> valid_utf8(entries@[k]->Some_0@)),
        r is Ok ==> r->Ok_0@.len() == scan_len(entries@),
        r is Ok ==> forall|k: int|
            0 <= k < scan_len(entries@) ==> r->Ok_0@[k]@ == decode_utf8(entries@[k]->Some_0@),
        r is Err ==> r->Err_0 == NgSpiceError::EncodingError,
{
    let mut out: Vec<String> = Vec::new();
    let mut i: usize = 0;
    while i < entries.len()
        invariant
            i <= entries@.len(),
            out@.len() == i,
            forall|k: int| 0 <= k < i ==> entries@[k] is Some,
            forall|k: int| 0 <= k < i ==> valid_utf8(entries@[k]->Some_0@),
            forall|k: int| 0 <= k < i ==> out@[k]@ == decode_utf8(entries@[k]->Some_0@),
        decreases entries@.len() - i,
    {
        match &entries[i] {
            Some(bytes) => {
                match decode_c_bytes(bytes) {
                    Ok(s) => {
                        out.push(s);
                    },
                    Err(e) => {
                        proof {
                            lemma_scan_len_lower_bound(entries@, i + 1);
                            assert(!valid_utf8(entries@[i as int]->Some_0@));
                        }
                        return Err(e);
                    },
                }
            },
            None => {
                proof {
                    lemma_scan_len_is_first_null(entries@, i as int);
                }
                return Ok(out);
            },
        }
        i = i + 1;
    }
    proof {
        lemma_scan_len_is_first_null(entries@, entries@.len() as int);
    }
    Ok(out)
}

/// When the first `m` entries are all non-null, the first null entry lies no
/// earlier than `m`.
pub proof fn lemma_scan_len_lower_bound(entries: Seq<Option<Vec<u8>>>, m: int)
    requires
        0 <= m <= entries.len(),
        forall|k: int| 0 <= k < m ==> entries[k] is Some,
    ensures
        scan_len(entries) >= m,
    decreases m,
{
    lemma_scan_len_bounds(entries);
    if m > 0 {
        assert(entries[0] is Some);
        let rest = entries.skip(1);
        assert forall|k: int| 0 <= k < m - 1 implies rest[k] is Some by {
            assert(rest[k] == entries[k + 1]);
        }
        lemma_scan_len_lower_bound(rest, m - 1);
        assert(scan_len(entries) == 1 + scan_len(rest));
    }
}

/// The first null entry lies within the sequence.
pub proof fn lemma_scan_len_bounds(entries: Seq<Option<Vec<u8>>>)
    ensures
        0 <= scan_len(entries) <= entries.len(),
    decreases entries.len(),
{
    if entries.len() > 0 && entries[0] is Some {
        lemma_scan_len_bounds(entries.skip(1));
    }
}

} // verus!
