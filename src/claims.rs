//! Claim records: the markers that make each attested transfer redeemable once.
use vstd::prelude::*;

use crate::address::bytes_eq;

verus! {

/// What identifies an attested message: the emitting chain, the emitter, and
/// the emitter's sequence number.
#[derive(Clone, Copy, Debug)]
pub struct ClaimKey {
    pub emitter_chain: u16,
    pub emitter_address: [u8; 32],
    pub sequence: u64,
}

/// Content-addressed set of claim records. Records are only ever added; the
/// insert that finds its key absent is what authorises a payout.
pub struct ClaimStore {
    keys: Vec<ClaimKey>,
}

impl View for ClaimStore {
    type V = Set<ClaimKey>;

    closed spec fn view(&self) -> Set<ClaimKey> {
        Set::new(|k: ClaimKey| self.keys@.contains(k))
    }
}

impl ClaimStore {
    /// A store with no claim.
    pub fn new() -> (r: ClaimStore)
        ensures
            r@ == Set::<ClaimKey>::empty(),
    {
        let r = ClaimStore { keys: Vec::new() };
        assert(r@ =~= Set::<ClaimKey>::empty());
        r
    }

    /// Whether a claim record exists for `key`.
    pub fn contains(&self, key: &ClaimKey) -> (r: bool)
        ensures
            r == self@.contains(*key),
    {
        let mut i: usize = 0;
        while i < self.keys.len()
            invariant
                0 <= i <= self.keys@.len(),
                forall|j: int| 0 <= j < i ==> self.keys@[j] != *key,
            decreases self.keys@.len() - i,
        {
            let k = &self.keys[i];
            if k.emitter_chain == key.emitter_chain && k.sequence == key.sequence && bytes_eq(
                &k.emitter_address,
                &key.emitter_address,
            ) {
                assert(self.keys@[i as int] == *key);
                return true;
            }
            i = i + 1;
        }
        false
    }

    /// Creates the claim record for `key` if there is none. Returns whether
    /// it was created; the store afterwards holds `key` either way.
    pub fn insert_if_absent(&mut self, key: ClaimKey) -> (created: bool)
        ensures
            created == !old(self)@.contains(key),
            final(self)@ == old(self)@.insert(key),
    {
        if self.contains(&key) {
            assert(self@ =~= self@.insert(key));
            false
        } else {
            let ghost before = self.keys@;
            self.keys.push(key);
            assert forall|k: ClaimKey| self.keys@.contains(k) == (before.contains(k) || k == key) by {
                if before.contains(k) {
                    let j = choose|j: int| 0 <= j < before.len() && before[j] == k;
                    assert(self.keys@[j] == k);
                }
                if self.keys@.contains(k) {
                    let j = choose|j: int| 0 <= j < self.keys@.len() && self.keys@[j] == k;
                    if j < before.len() {
                        assert(before[j] == k);
                    }
                }
                if k == key {
                    assert(self.keys@[before.len() as int] == k);
                }
            }
            assert(self@ =~= old(self)@.insert(key));
            true
        }
    }
}

} // verus!
