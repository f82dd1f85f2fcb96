//! Saving the settings and the session state only when they changed: the serialized text
//! is hashed, and written only when its hash differs from the one last written.

use vstd::prelude::*;

verus! {

/// Hashes `text` with rustc_hash's `FxHasher`, fed as `str`'s `Hash` feeds a hasher.
/// Nothing is stated of the value: the hasher has no random seed, but its mixing constant
/// depends on the width of `usize`, so one text hashes differently on 32-bit and 64-bit
/// builds.
#[verifier::external_body]
fn fx_hash(text: &str) -> (h: u64) {
    let mut hasher = rustc_hash::FxHasher::default();
    std::hash::Hash::hash(text, &mut hasher);
    std::hash::Hasher::finish(&hasher)
}

/// Whether state with hash `current` must be written, given the hash `last` written
/// before: the hash to record once written, or `None` when nothing changed.
pub open spec fn spec_pending_hash(last: u64, current: u64) -> Option<u64> {
    if current != last { Some(current) } else { None }
}

/// Whether state with hash `current` must be written, given the hash `last` written
/// before.
pub fn pending_hash(last: u64, current: u64) -> (r: Option<u64>)
    ensures
        r == spec_pending_hash(last, current),
{
    if current != last { Some(current) } else { None }
}

/// The hash of the state last written to disk.
#[derive(Debug, Clone, Copy, PartialEq, Eq, Structural)]
pub struct SaveMark {
    pub last_saved: u64,
}

impl SaveMark {
    /// Nothing written yet.
    pub fn new() -> (m: SaveMark)
        ensures
            m.last_saved == 0,
    {
        SaveMark { last_saved: 0 }
    }

    /// Hashes the serialized state `json`: returns that hash and the decision taken from
    /// it, the hash to record once the state is written, or `None` when it matches what
    /// was last written.
    pub fn pending(&self, json: &str) -> (r: (u64, Option<u64>))
        ensures
            r.1 == spec_pending_hash(self.last_saved, r.0),
    {
        let current = fx_hash(json);
        (current, pending_hash(self.last_saved, current))
    }

    /// The state with hash `hash` was written.
    pub fn saved(&mut self, hash: u64)
        ensures
            final(self).last_saved == hash,
    {
        self.last_saved = hash;
    }
}

/// Once written, the same state is not written again: after recording a hash, that hash
/// asks for no write.
pub proof fn law_unchanged_state_not_rewritten(last: u64, current: u64)
    ensures
        spec_pending_hash(current, current) is None,
        spec_pending_hash(last, current) is Some <==> last != current,
{
}

} // verus!
