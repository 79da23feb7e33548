use vstd::prelude::*;

verus! {

/// The name of the record type that turns address synchronisation on.
pub open spec fn address_marker() -> Seq<char> {
    seq!['A']
}

/// The views of a list of strings.
pub open spec fn views_of(v: Seq<String>) -> Seq<Seq<char>> {
    v.map_values(|s: String| s@)
}

/// A copy of `v`, string by string.
pub(crate) fn clone_strings(v: &Vec<String>) -> (r: Vec<String>)
    ensures
        r@ == v@,
{
    let mut r: Vec<String> = Vec::new();
    let mut i: usize = 0;
    while i < v.len()
        invariant
            i <= v.len(),
            r@ == v@.subrange(0, i as int),
        decreases v.len() - i,
    {
        r.push(v[i].clone());
        i = i + 1;
    }
    assert(r@ =~= v@);
    r
}

/// The static configuration of a run: the provider credential, the zone, the
/// domains to keep current, the record types enabled and the poll interval in
/// seconds.
pub struct Config {
    pub token: String,
    pub zone: String,
    pub domains: Vec<String>,
    pub records: Vec<String>,
    pub interval: u64,
}

impl Config {
    /// The record-type names enabled.
    pub open spec fn records(&self) -> Seq<Seq<char>> {
        views_of(self.records@)
    }

    pub fn new(token: String, zone: String, domains: Vec<String>, records: Vec<String>, interval: u64) -> (r: Config)
        ensures
            r.token == token,
            r.zone == zone,
            r.domains == domains,
            r.records() == views_of(records@),
            r.interval == interval,
    {
        Config { token, zone, domains, records, interval }
    }

    /// Whether address records are to be synchronised: the address-record
    /// marker is among the enabled record types.
    pub fn ipv4(&self) -> (r: bool)
        ensures
            r == self.records().contains(address_marker()),
    {
        let marker = "A".to_string();
        proof {
            reveal_strlit("A");
        }
        let mut i: usize = 0;
        while i < self.records.len()
            invariant
                i <= self.records@.len(),
                marker@ == address_marker(),
                forall|j: int| 0 <= j < i ==> self.records@[j]@ != address_marker(),
            decreases self.records@.len() - i,
        {
            if self.records[i] == marker {
                assert(self.records()[i as int] == address_marker());
                return true;
            }
            i = i + 1;
        }
        proof {
            if self.records().contains(address_marker()) {
                let k = choose|k: int| 0 <= k < self.records().len() && self.records()[k] == address_marker();
                assert(self.records@[k]@ == address_marker());
            }
        }
        false
    }
}

} // verus!
