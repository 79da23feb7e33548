use vstd::prelude::*;

use crate::addr::Ipv4;
use crate::config::{address_marker, clone_strings, views_of, Config};

verus! {

/// A zone as the provider lists it.
pub struct ZoneInfo {
    pub id: String,
    pub name: String,
}

/// The type of a DNS record.
#[derive(Clone, Copy, Debug, PartialEq, Eq, Structural)]
pub enum RecordKind {
    A,
    Aaaa,
    Cname,
    Ns,
    Mx,
    Txt,
    Srv,
}

/// A record as the provider lists it: its identifier and its type. What the
/// record currently points to plays no part in finding it.
pub struct RecordInfo {
    pub id: String,
    pub kind: RecordKind,
}

/// The view of an optional string.
pub open spec fn opt_view(o: Option<String>) -> Option<Seq<char>> {
    match o {
        Some(s) => Some(s@),
        None => None,
    }
}

/// `zones[i]` is the first zone named `name`.
pub open spec fn is_first_zone(zones: Seq<ZoneInfo>, name: Seq<char>, i: int) -> bool {
    &&& 0 <= i < zones.len()
    &&& zones[i].name@ == name
    &&& forall|j: int| 0 <= j < i ==> zones[j].name@ != name
}

/// The identifier of the first zone named `name`, if any.
pub open spec fn first_zone(zones: Seq<ZoneInfo>, name: Seq<char>) -> Option<Seq<char>> {
    if exists|i: int| is_first_zone(zones, name, i) {
        Some(zones[choose|i: int| is_first_zone(zones, name, i)].id@)
    } else {
        None
    }
}

/// `records[i]` is the first record of type `kind`.
pub open spec fn is_first_record(records: Seq<RecordInfo>, kind: RecordKind, i: int) -> bool {
    &&& 0 <= i < records.len()
    &&& records[i].kind == kind
    &&& forall|j: int| 0 <= j < i ==> records[j].kind != kind
}

/// The identifier of the first record of type `kind`, if any.
pub open spec fn first_record(records: Seq<RecordInfo>, kind: RecordKind) -> Option<Seq<char>> {
    if exists|i: int| is_first_record(records, kind, i) {
        Some(records[choose|i: int| is_first_record(records, kind, i)].id@)
    } else {
        None
    }
}

/// Resolves the zone handle: the identifier of the first zone in `zones`
/// whose name is `name`. Several zones of that name are no error.
pub fn get_zone(zones: &Vec<ZoneInfo>, name: &String) -> (r: Option<String>)
    ensures
        opt_view(r) == first_zone(zones@, name@),
        r is None <==> forall|i: int| 0 <= i < zones@.len() ==> zones@[i].name@ != name@,
{
    let mut i: usize = 0;
    while i < zones.len()
        invariant
            i <= zones@.len(),
            forall|j: int| 0 <= j < i ==> zones@[j].name@ != name@,
        decreases zones@.len() - i,
    {
        if zones[i].name == *name {
            let id = zones[i].id.clone();
            proof {
                assert(is_first_zone(zones@, name@, i as int));
            }
            return Some(id);
        }
        i = i + 1;
    }
    None
}

/// Finds the record handle: the identifier of the first record in `records`
/// of type `kind`.
pub fn get_record(records: &Vec<RecordInfo>, kind: RecordKind) -> (r: Option<String>)
    ensures
        opt_view(r) == first_record(records@, kind),
        r is None <==> forall|i: int| 0 <= i < records@.len() ==> records@[i].kind != kind,
{
    let mut i: usize = 0;
    while i < records.len()
        invariant
            i <= records@.len(),
            forall|j: int| 0 <= j < i ==> records@[j].kind != kind,
        decreases records@.len() - i,
    {
        if records[i].kind == kind {
            let id = records[i].id.clone();
            proof {
                assert(is_first_record(records@, kind, i as int));
            }
            return Some(id);
        }
        i = i + 1;
    }
    None
}

} // verus!

verus! {

/// The zone handle could not be resolved.
#[derive(Clone, Copy, Debug, PartialEq, Eq, Structural)]
pub enum SyncError {
    /// The provider lists no zone of the configured name.
    ZoneNotFound,
}

/// Where the syncer stands.
#[derive(Clone, Copy, Debug, PartialEq, Eq, Structural)]
pub enum Phase {
    /// Waiting for the next change event.
    Waiting,
    /// The records of the domain at `index` have been asked for.
    Looking { ip: Ipv4, index: usize },
    /// The update of the domain at `index` has been asked for.
    Updating { ip: Ipv4, index: usize },
    /// An update failed; shutdown has been asked for and nothing follows.
    Stopped,
}

/// What the syncer asks of whoever talks to the provider.
pub enum SyncAction {
    /// Hand over the next change event.
    Receive,
    /// List the records named `domain` in `zone`, and hand them over.
    Lookup { zone: String, domain: String },
    /// Set the content of record `record` (named `domain`, in `zone`) to `ip`,
    /// leaving its other attributes as they are, and report whether it worked.
    Update { zone: String, record: String, domain: String, ip: Ipv4 },
    /// Stop the process.
    Shutdown,
}

/// `a` asks for the records of `domain` in `zone`.
pub open spec fn is_lookup(a: SyncAction, zone: Seq<char>, domain: Seq<char>) -> bool {
    a matches SyncAction::Lookup { zone: z, domain: d } && z@ == zone && d@ == domain
}

/// `a` asks for record `record` of `domain` in `zone` to point to `ip`.
pub open spec fn is_update(
    a: SyncAction,
    zone: Seq<char>,
    record: Seq<char>,
    domain: Seq<char>,
    ip: Ipv4,
) -> bool {
    &&& a matches SyncAction::Update { zone: z, record: rec, domain: d, ip: i }
    &&& z@ == zone && rec@ == record && d@ == domain && i == ip
}

/// Pushes each detected address change to every configured domain, in
/// configuration order, one provider call at a time.
pub struct DnsUpdater {
    ipv4: bool,
    zone: String,
    domains: Vec<String>,
    phase: Phase,
}

impl DnsUpdater {
    /// Whether address records are synchronised at all.
    pub closed spec fn enabled(&self) -> bool {
        self.ipv4
    }

    /// The zone handle.
    pub closed spec fn zone_id(&self) -> Seq<char> {
        self.zone@
    }

    /// The domains kept current, in configuration order.
    pub closed spec fn targets(&self) -> Seq<Seq<char>> {
        views_of(self.domains@)
    }

    pub closed spec fn spec_phase(&self) -> Phase {
        self.phase
    }

    /// A batch is under way only while synchronisation is enabled, and then
    /// it points at a configured domain.
    pub closed spec fn wf(&self) -> bool {
        match self.phase {
            Phase::Looking { index, .. } => self.ipv4 && index < self.domains@.len(),
            Phase::Updating { index, .. } => self.ipv4 && index < self.domains@.len(),
            Phase::Waiting => true,
            Phase::Stopped => self.ipv4,
        }
    }

    /// The configuration is fixed for the syncer's lifetime.
    pub open spec fn same_setup(&self, other: &DnsUpdater) -> bool {
        &&& other.enabled() == self.enabled()
        &&& other.zone_id() == self.zone_id()
        &&& other.targets() == self.targets()
    }

    /// Once the domains before `next` are done: the next domain's records are
    /// asked for, or, past the last domain, the next change event.
    pub open spec fn moves_on(&self, ip: Ipv4, next: int, p: Phase, a: SyncAction) -> bool {
        if next < self.targets().len() {
            p == (Phase::Looking { ip, index: next as usize }) && is_lookup(
                a,
                self.zone_id(),
                self.targets()[next],
            )
        } else {
            p == Phase::Waiting && a is Receive
        }
    }

    /// A syncer for `conf`, in the zone that `zones` lists under the
    /// configured zone name (the first such zone); an error where it lists
    /// none.
    pub fn new(conf: &Config, zones: &Vec<ZoneInfo>) -> (r: Result<DnsUpdater, SyncError>)
        ensures
            first_zone(zones@, conf.zone@) is None <==> r is Err,
            r matches Err(e) ==> e == SyncError::ZoneNotFound,
            r matches Ok(u) ==> {
                &&& u.wf()
                &&& u.spec_phase() == Phase::Waiting
                &&& u.enabled() == conf.records().contains(address_marker())
                &&& first_zone(zones@, conf.zone@) == Some(u.zone_id())
                &&& u.targets() == views_of(conf.domains@)
            },
    {
        match get_zone(zones, &conf.zone) {
            None => Err(SyncError::ZoneNotFound),
            Some(zone) => Ok(
                DnsUpdater {
                    ipv4: conf.ipv4(),
                    zone,
                    domains: clone_strings(&conf.domains),
                    phase: Phase::Waiting,
                },
            ),
        }
    }

    pub fn phase(&self) -> (r: Phase)
        ensures
            r == self.spec_phase(),
    {
        self.phase
    }

    pub fn zone(&self) -> (r: &String)
        ensures
            r@ == self.zone_id(),
    {
        &self.zone
    }

    /// Ask for the records of the domain at `index`, or for the next change
    /// event once every domain is done.
    fn move_to(&mut self, ip: Ipv4, index: usize) -> (r: SyncAction)
        requires
            old(self).ipv4,
            index <= old(self).domains@.len(),
        ensures
            final(self).wf(),
            old(self).same_setup(final(self)),
            old(self).moves_on(ip, index as int, final(self).spec_phase(), r),
    {
        if index < self.domains.len() {
            self.phase = Phase::Looking { ip, index };
            SyncAction::Lookup { zone: self.zone.clone(), domain: self.domains[index].clone() }
        } else {
            self.phase = Phase::Waiting;
            SyncAction::Receive
        }
    }

    /// A change event to `ip` arrives: a batch starts with the first domain,
    /// unless synchronisation is off or there is no domain.
    pub fn on_change(&mut self, ip: Ipv4) -> (r: SyncAction)
        requires
            old(self).wf(),
            old(self).spec_phase() == Phase::Waiting,
        ensures
            final(self).wf(),
            old(self).same_setup(final(self)),
            old(self).enabled() ==> old(self).moves_on(ip, 0, final(self).spec_phase(), r),
            !old(self).enabled() ==> final(self).spec_phase() == Phase::Waiting && r is Receive,
    {
        if self.ipv4 {
            self.move_to(ip, 0)
        } else {
            SyncAction::Receive
        }
    }

    /// The records of the current domain arrive (`None`: they could not be
    /// listed). With an address record among them, that record is updated;
    /// without one, the domain is skipped and the batch goes on.
    pub fn on_records(&mut self, listed: Option<Vec<RecordInfo>>) -> (r: SyncAction)
        requires
            old(self).wf(),
            old(self).spec_phase() is Looking,
        ensures
            final(self).wf(),
            old(self).same_setup(final(self)),
            ({
                let ip = old(self).spec_phase()->Looking_ip;
                let index = old(self).spec_phase()->Looking_index;
                let found = match listed {
                    Some(v) => first_record(v@, RecordKind::A),
                    None => None,
                };
                match found {
                    Some(record) => {
                        &&& final(self).spec_phase() == (Phase::Updating { ip, index })
                        &&& is_update(
                            r,
                            old(self).zone_id(),
                            record,
                            old(self).targets()[index as int],
                            ip,
                        )
                    },
                    None => old(self).moves_on(ip, index + 1, final(self).spec_phase(), r),
                }
            }),
    {
        let (ip, index) = match self.phase {
            Phase::Looking { ip, index } => (ip, index),
            _ => {
                proof {
                    assert(false);
                }
                return SyncAction::Receive;
            },
        };
        let found = match &listed {
            Some(v) => get_record(v, RecordKind::A),
            None => None,
        };
        match found {
            Some(record) => {
                self.phase = Phase::Updating { ip, index };
                SyncAction::Update {
                    zone: self.zone.clone(),
                    record,
                    domain: self.domains[index].clone(),
                    ip,
                }
            },
            None => {
                let count = self.domains.len();
                assert(index < count);
                self.move_to(ip, index + 1)
            },
        }
    }

    /// The outcome of the current update arrives. A success moves on to the
    /// next domain; a failure abandons the rest of the batch and asks for
    /// shutdown.
    pub fn on_update(&mut self, ok: bool) -> (r: SyncAction)
        requires
            old(self).wf(),
            old(self).spec_phase() is Updating,
        ensures
            final(self).wf(),
            old(self).same_setup(final(self)),
            ({
                let ip = old(self).spec_phase()->Updating_ip;
                let index = old(self).spec_phase()->Updating_index;
                if ok {
                    old(self).moves_on(ip, index + 1, final(self).spec_phase(), r)
                } else {
                    final(self).spec_phase() == Phase::Stopped && r is Shutdown
                }
            }),
    {
        let (ip, index) = match self.phase {
            Phase::Updating { ip, index } => (ip, index),
            _ => {
                proof {
                    assert(false);
                }
                return SyncAction::Shutdown;
            },
        };
        let count = self.domains.len();
        assert(index < count);
        if ok {
            self.move_to(ip, index + 1)
        } else {
            self.phase = Phase::Stopped;
            SyncAction::Shutdown
        }
    }
}

/// With address synchronisation off, the syncer never leaves its waiting
/// phase: no change event ever leads to a provider call.
pub proof fn lemma_disabled_stays_waiting(u: &DnsUpdater)
    requires
        u.wf(),
        !u.enabled(),
    ensures
        u.spec_phase() == Phase::Waiting,
{
}

} // verus!
