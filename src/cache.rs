use vstd::prelude::*;

use crate::addr::{unspecified_spec, Ipv4};

verus! {

/// What `put` reports when `seen` is observed while `held` is the last known
/// address: the new address when it differs, nothing when it is the same.
pub open spec fn change_of(held: Ipv4, seen: Ipv4) -> Option<Ipv4> {
    if seen == held {
        None
    } else {
        Some(seen)
    }
}

/// How many changes a run of `put` calls reports, starting from a cache that
/// holds `held` and observing the addresses of `seen` in order.
pub open spec fn changes(held: Ipv4, seen: Seq<Ipv4>) -> nat
    decreases seen.len(),
{
    if seen.len() == 0 {
        0
    } else {
        let rest = changes(seen[0], seen.drop_first());
        if change_of(held, seen[0]) is Some {
            rest + 1
        } else {
            rest
        }
    }
}

/// On a cache that holds nothing yet, a first address is reported as a
/// change, seeing it again is not, and seeing another one after it is.
/// (`put` leaves the cache holding the address it was given.)
pub proof fn lemma_put_reports_changes(a: Ipv4, b: Ipv4)
    requires
        a != b,
        a != unspecified_spec(),
    ensures
        change_of(unspecified_spec(), a) == Some(a),
        change_of(a, a) == None::<Ipv4>,
        change_of(a, b) == Some(b),
{
}

/// Seeing the address that is already held, any number of times, reports no
/// change.
pub proof fn lemma_same_address_never_changes(a: Ipv4, seen: Seq<Ipv4>)
    requires
        forall|i: int| 0 <= i < seen.len() ==> seen[i] == a,
    ensures
        changes(a, seen) == 0,
    decreases seen.len(),
{
    if seen.len() > 0 {
        lemma_same_address_never_changes(a, seen.drop_first());
    }
}

/// Putting one address over and over reports at most one change: one when the
/// cache held another address, none when it held that one.
pub proof fn lemma_put_idempotent(held: Ipv4, a: Ipv4, seen: Seq<Ipv4>)
    requires
        seen.len() > 0,
        forall|i: int| 0 <= i < seen.len() ==> seen[i] == a,
    ensures
        changes(held, seen) <= 1,
        changes(held, seen) == (if held == a { 0nat } else { 1nat }),
{
    lemma_same_address_never_changes(a, seen.drop_first());
}

/// The last address seen and applied, and the file that persists it.
///
/// The cache decides; whoever owns the file writes `held` to `cache_file`
/// each time `put` reports a change.
pub struct WatchCache {
    ipv4: Ipv4,
    cache_file: String,
}

impl WatchCache {
    /// The address the cache holds.
    pub closed spec fn held(&self) -> Ipv4 {
        self.ipv4
    }

    /// Where the held address is persisted.
    pub closed spec fn file(&self) -> Seq<char> {
        self.cache_file@
    }

    /// A cache for `cache_file`, holding what was read from it, or the
    /// unspecified address where nothing could be read.
    pub fn new(cache_file: String, stored: Option<Ipv4>) -> (r: WatchCache)
        ensures
            r.held() == (match stored {
                Some(ip) => ip,
                None => unspecified_spec(),
            }),
            r.file() == cache_file@,
    {
        let ipv4 = match stored {
            Some(ip) => ip,
            None => Ipv4::unspecified(),
        };
        WatchCache { ipv4, cache_file }
    }

    pub fn ipv4(&self) -> (r: Ipv4)
        ensures
            r == self.held(),
    {
        self.ipv4
    }

    pub fn cache_file(&self) -> (r: &String)
        ensures
            r@ == self.file(),
    {
        &self.cache_file
    }

    /// Records `ipv4` as the last address seen. Returns it when it differs
    /// from the address held before, and `None` when it is the same; in that
    /// case the cache is left as it was.
    pub fn put(&mut self, ipv4: Ipv4) -> (r: Option<Ipv4>)
        ensures
            r == change_of(old(self).held(), ipv4),
            final(self).held() == ipv4,
            final(self).file() == old(self).file(),
            r is None ==> *final(self) == *old(self),
    {
        if ipv4 != self.ipv4 {
            self.ipv4 = ipv4;
            Some(ipv4)
        } else {
            None
        }
    }
}

} // verus!
