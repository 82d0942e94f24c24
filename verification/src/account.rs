use vstd::prelude::*;

verus! {

/// A 256-bit ledger address, held as four 64-bit words.  Baskets, mints,
/// stakers, executors and eligible assets are all identified by one.  The
/// governance logic only ever compares addresses for equality.
#[derive(Clone, Copy, PartialEq, Eq, Structural, Debug)]
pub struct AccountId {
    pub w0: u64,
    pub w1: u64,
    pub w2: u64,
    pub w3: u64,
}

impl AccountId {
    pub fn new(w0: u64, w1: u64, w2: u64, w3: u64) -> (r: AccountId)
        ensures
            r == (AccountId { w0, w1, w2, w3 }),
    {
        AccountId { w0, w1, w2, w3 }
    }
}

/// Whether `key` occurs in `list`.
pub fn contains_account(list: &Vec<AccountId>, key: AccountId) -> (r: bool)
    ensures
        r == list@.contains(key),
{
    let mut i: usize = 0;
    while i < list.len()
        invariant
            0 <= i <= list@.len(),
            forall|j: int| 0 <= j < i ==> list@[j] != key,
        decreases list@.len() - i,
    {
        if list[i] == key {
            assert(list@[i as int] == key);
            return true;
        }
        i = i + 1;
    }
    false
}

} // verus!
