//! Uniqueness of orders: exactly one record may exist per
//! (maker, order_id) pair. The host's account machinery enforces this by
//! refusing to re-initialize an existing record; this models that refusal.

use vstd::prelude::*;

use crate::keys::Pubkey;
use crate::keys::pubkey_eq;

verus! {

/// Whether an order keyed by `maker` and `order_id` is already recorded.
pub open spec fn spec_registered(entries: Seq<(Pubkey, u64)>, maker: Seq<u8>, order_id: u64) -> bool {
    exists|i: int| 0 <= i < entries.len() && entries[i].0@ == maker && entries[i].1 == order_id
}

/// The (maker, order_id) pairs for which an order record exists.
pub struct Registry {
    entries: Vec<(Pubkey, u64)>,
}

impl View for Registry {
    type V = Seq<(Pubkey, u64)>;

    closed spec fn view(&self) -> Seq<(Pubkey, u64)> {
        self.entries@
    }
}

impl Registry {
    /// An empty registry: no order exists yet.
    pub fn new() -> (r: Registry)
        ensures
            r@ == Seq::<(Pubkey, u64)>::empty(),
    {
        Registry { entries: Vec::new() }
    }

    /// Whether an order for (`maker`, `order_id`) is already recorded.
    pub fn contains(&self, maker: &Pubkey, order_id: u64) -> (r: bool)
        ensures
            r == spec_registered(self@, maker@, order_id),
    {
        let n = self.entries.len();
        let mut i: usize = 0;
        while i < n
            invariant
                0 <= i <= n,
                n == self.entries.len(),
                forall|j: int| 0 <= j < i ==> !(self.entries@[j].0@ == maker@ && self.entries@[j].1 == order_id),
            decreases n - i,
        {
            let entry = &self.entries[i];
            if pubkey_eq(&entry.0, maker) && entry.1 == order_id {
                return true;
            }
            i += 1;
        }
        false
    }

    /// Record that an order for (`maker`, `order_id`) now exists.
    pub fn record(&mut self, maker: Pubkey, order_id: u64)
        ensures
            final(self)@ == old(self)@.push((maker, order_id)),
    {
        self.entries.push((maker, order_id));
    }
}

} // verus!
