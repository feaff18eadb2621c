//! Bookkeeping for the batch note-decryption pipeline.  A batch of hex
//! ciphertexts is decoded up front; each item is then decrypted
//! independently by the external cryptography library, producing an
//! optional plaintext per position; and the successful items are collected
//! in position order, each tagged with its original index.  Per-item
//! failures are omitted, never surfaced: the batch as a whole still
//! succeeds.

use vstd::prelude::*;
use crate::hex::{hex_decode_bytes, hex_decode_ok, hex_encode_chars, hex_decode_raw, hex_encode_raw};

verus! {

/// One successfully decrypted note: the hex rendering of its plaintext
/// bytes, tagged with the position its ciphertext held in the input batch.
#[derive(Debug, Clone, PartialEq, Eq)]
pub struct DecryptedNote {
    pub index: u32,
    pub note: String,
}

/// The pair a `DecryptedNote` denotes: its original position and the
/// characters of its hex-rendered plaintext.
pub open spec fn entry_of(d: DecryptedNote) -> (u32, Seq<char>) {
    (d.index, d.note@)
}

/// The bytes an optional plaintext holds, if any.
pub open spec fn opt_bytes(o: Option<Vec<u8>>) -> Option<Seq<u8>> {
    match o {
        Some(v) => Some(v@),
        None => None,
    }
}

/// The collected output of a batch whose per-item outcomes are `results`:
/// for each position holding a plaintext, in position order, the position
/// and the hex rendering of the plaintext; positions without one are
/// omitted.
pub open spec fn collected(results: Seq<Option<Seq<u8>>>) -> Seq<(u32, Seq<char>)>
    decreases results.len(),
{
    if results.len() == 0 {
        Seq::empty()
    } else {
        let prefix = collected(results.drop_last());
        match results.last() {
            Some(b) => prefix.push(((results.len() - 1) as u32, hex_encode_chars(b))),
            None => prefix,
        }
    }
}

/// How many items of a batch produced a plaintext.
pub open spec fn count_some(results: Seq<Option<Seq<u8>>>) -> nat
    decreases results.len(),
{
    if results.len() == 0 {
        0
    } else {
        count_some(results.drop_last()) + (if results.last() is Some { 1nat } else { 0nat })
    }
}

/// Law: collecting a batch keeps exactly the items that produced a
/// plaintext — one output entry per such item, each carrying its original
/// position and the hex rendering of that position's plaintext, with
/// positions strictly increasing.  Collecting an empty batch yields an
/// empty sequence.
pub proof fn lemma_collected_entries(results: Seq<Option<Seq<u8>>>)
    requires
        results.len() <= u32::MAX,
    ensures
        collected(results).len() == count_some(results),
        forall|j: int| 0 <= j < collected(results).len() ==> {
            let e = #[trigger] collected(results)[j];
            0 <= e.0 < results.len()
            && results[e.0 as int] is Some
            && (results[e.0 as int] matches Some(b) && e.1 == hex_encode_chars(b))
        },
        forall|j1: int, j2: int|
            0 <= j1 < j2 < collected(results).len()
                ==> collected(results)[j1].0 < collected(results)[j2].0,
    decreases results.len(),
{
    if results.len() > 0 {
        lemma_collected_entries(results.drop_last());
        let pre = collected(results.drop_last());
        assert forall|j: int| 0 <= j < pre.len() implies {
            let e = #[trigger] pre[j];
            0 <= e.0 < results.len()
            && results[e.0 as int] is Some
            && (results[e.0 as int] matches Some(b) && e.1 == hex_encode_chars(b))
        } by {
            let e = pre[j];
            assert(results.drop_last()[e.0 as int] == results[e.0 as int]);
        }
    }
}

/// Decodes each ciphertext of a batch from hex, independently: position
/// `i` of the result holds the bytes of ciphertext `i` where it is
/// well-formed hex, and nothing where it is not.
pub fn decode_ciphertexts(note_encrypteds: &Vec<String>) -> (out: Vec<Option<Vec<u8>>>)
    ensures
        out@.len() == note_encrypteds@.len(),
        forall|i: int| 0 <= i < out@.len() ==> {
            &&& (#[trigger] out@[i]) is Some <==> hex_decode_ok(note_encrypteds@[i]@)
            &&& (out@[i] matches Some(v) ==> v@ == hex_decode_bytes(note_encrypteds@[i]@))
        },
{
    let mut out: Vec<Option<Vec<u8>>> = Vec::new();
    let n = note_encrypteds.len();
    for i in 0..n
        invariant
            n == note_encrypteds@.len(),
            out@.len() == i,
            forall|k: int| 0 <= k < i ==> {
                &&& (#[trigger] out@[k]) is Some <==> hex_decode_ok(note_encrypteds@[k]@)
                &&& (out@[k] matches Some(v) ==> v@ == hex_decode_bytes(note_encrypteds@[k]@))
            },
    {
        out.push(hex_decode_raw(&note_encrypteds[i]));
    }
    out
}

/// Collects the surviving items of a batch of per-item decryption
/// outcomes: each plaintext becomes a `DecryptedNote` carrying its
/// original position and hex-rendered bytes, in position order; failed
/// positions are omitted and the call still succeeds.  An empty batch
/// collects to an empty sequence.
pub fn collect_decrypted(results: &Vec<Option<Vec<u8>>>) -> (out: Vec<DecryptedNote>)
    requires
        results@.len() <= u32::MAX,
    ensures
        out@.map_values(|d: DecryptedNote| entry_of(d))
            == collected(results@.map_values(|o: Option<Vec<u8>>| opt_bytes(o))),
{
    let ghost all = results@.map_values(|o: Option<Vec<u8>>| opt_bytes(o));
    let mut out: Vec<DecryptedNote> = Vec::new();
    let n = results.len();
    for i in 0..n
        invariant
            n == results@.len(),
            n <= u32::MAX,
            all == results@.map_values(|o: Option<Vec<u8>>| opt_bytes(o)),
            all.len() == n,
            out@.map_values(|d: DecryptedNote| entry_of(d)) == collected(all.take(i as int)),
    {
        proof {
            assert(all.take(i + 1).drop_last() =~= all.take(i as int));
            assert(all.take(i + 1).last() == all[i as int]);
        }
        match &results[i] {
            Some(v) => {
                let note = hex_encode_raw(v);
                let d = DecryptedNote { index: i as u32, note };
                out.push(d);
                proof {
                    assert(out@.map_values(|d: DecryptedNote| entry_of(d))
                        =~= collected(all.take(i as int)).push((i as u32, hex_encode_chars(all[i as int]->Some_0))));
                }
            },
            None => {},
        }
    }
    proof {
        assert(all.take(n as int) =~= all);
    }
    out
}

} // verus!
