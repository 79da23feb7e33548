use cfddns::addr::Ipv4;
use cfddns::cache::WatchCache;
use cfddns::config::Config;
use cfddns::sync::{
    get_record, get_zone, DnsUpdater, Phase, RecordInfo, RecordKind, SyncAction, SyncError,
    ZoneInfo,
};
use cfddns::watch::{Watch, WatchAction};

fn zone(id: &str, name: &str) -> ZoneInfo {
    ZoneInfo { id: id.to_string(), name: name.to_string() }
}

fn record(id: &str, kind: RecordKind) -> RecordInfo {
    RecordInfo { id: id.to_string(), kind }
}

fn config(domains: &[&str], records: &[&str]) -> Config {
    Config::new(
        "token".to_string(),
        "ex.com".to_string(),
        domains.iter().map(|s| s.to_string()).collect(),
        records.iter().map(|s| s.to_string()).collect(),
        300,
    )
}

fn zones() -> Vec<ZoneInfo> {
    vec![zone("z1", "ex.com"), zone("z2", "ex.com")]
}

/// A simulated provider: the records of each domain, and the domains whose
/// update fails.
struct Provider {
    records: Vec<(String, Vec<(String, RecordKind)>)>,
    failing: Vec<String>,
    lookups: Vec<String>,
    updates: Vec<(String, String, String, Ipv4)>,
}

impl Provider {
    fn new(records: &[(&str, &[(&str, RecordKind)])], failing: &[&str]) -> Provider {
        Provider {
            records: records
                .iter()
                .map(|(d, rs)| {
                    (d.to_string(), rs.iter().map(|(id, k)| (id.to_string(), *k)).collect())
                })
                .collect(),
            failing: failing.iter().map(|s| s.to_string()).collect(),
            lookups: Vec::new(),
            updates: Vec::new(),
        }
    }

    fn list(&self, domain: &str) -> Option<Vec<RecordInfo>> {
        self.records
            .iter()
            .find(|(d, _)| d == domain)
            .map(|(_, rs)| rs.iter().map(|(id, k)| record(id, *k)).collect())
    }

    /// Hands `ip` to the syncer and serves its requests until it waits for
    /// the next event or asks for shutdown; returns its last action.
    fn serve(&mut self, u: &mut DnsUpdater, ip: Ipv4) -> SyncAction {
        let mut action = u.on_change(ip);
        loop {
            action = match action {
                SyncAction::Lookup { zone, domain } => {
                    assert_eq!(zone, "z1");
                    self.lookups.push(domain.clone());
                    let listed = self.list(&domain);
                    u.on_records(listed)
                }
                SyncAction::Update { zone, record, domain, ip } => {
                    let ok = !self.failing.contains(&domain);
                    self.updates.push((zone, record, domain, ip));
                    u.on_update(ok)
                }
                other => return other,
            };
        }
    }
}

fn two_domains() -> Provider {
    Provider::new(
        &[
            ("a.ex.com", &[("ra-mx", RecordKind::Mx), ("ra", RecordKind::A)]),
            ("b.ex.com", &[("rb", RecordKind::A)]),
        ],
        &[],
    )
}

#[test]
fn zone_resolution_picks_first_match() {
    assert_eq!(get_zone(&zones(), &"ex.com".to_string()), Some("z1".to_string()));
    let mixed = vec![zone("z0", "other.com"), zone("z1", "ex.com"), zone("z2", "ex.com")];
    assert_eq!(get_zone(&mixed, &"ex.com".to_string()), Some("z1".to_string()));
    assert_eq!(get_zone(&mixed, &"none.com".to_string()), None);
    assert_eq!(get_zone(&Vec::new(), &"ex.com".to_string()), None);
}

#[test]
fn updater_uses_first_zone() {
    let u = DnsUpdater::new(&config(&["a.ex.com"], &["A"]), &zones()).ok().unwrap();
    assert_eq!(u.zone(), "z1");
    assert_eq!(u.phase(), Phase::Waiting);
}

#[test]
fn updater_without_zone_fails() {
    let r = DnsUpdater::new(&config(&["a.ex.com"], &["A"]), &vec![zone("z9", "else.com")]);
    assert!(matches!(r, Err(SyncError::ZoneNotFound)));
}

#[test]
fn record_matched_by_type_only() {
    let rs = vec![
        record("r1", RecordKind::Cname),
        record("r2", RecordKind::A),
        record("r3", RecordKind::A),
    ];
    assert_eq!(get_record(&rs, RecordKind::A), Some("r2".to_string()));
    assert_eq!(get_record(&rs, RecordKind::Aaaa), None);
    assert_eq!(get_record(&Vec::new(), RecordKind::A), None);
}

/// Runs one poll through the watcher, persisting successfully; returns the
/// address to hand to the syncer, if any.
fn poll(w: &mut Watch, seen: Ipv4) -> Option<Ipv4> {
    match w.on_fetch(Some(seen)) {
        WatchAction::Persist(ip) => match w.on_persisted(ip, true) {
            WatchAction::Emit(ip) => Some(ip),
            other => panic!("unexpected {:?}", other),
        },
        WatchAction::Wait => None,
        other => panic!("unexpected {:?}", other),
    }
}

#[test]
fn first_poll_updates_every_domain_then_repeat_is_quiet() {
    let conf = config(&["a.ex.com", "b.ex.com"], &["A"]);
    let mut w = Watch::new(WatchCache::new("cache.yaml".to_string(), None), &conf);
    let mut u = DnsUpdater::new(&conf, &zones()).ok().unwrap();
    let mut p = two_domains();
    let ip = Ipv4::new(1, 1, 1, 1);

    let event = poll(&mut w, ip);
    assert_eq!(event, Some(ip));
    assert!(matches!(p.serve(&mut u, ip), SyncAction::Receive));
    assert_eq!(
        p.updates,
        vec![
            ("z1".to_string(), "ra".to_string(), "a.ex.com".to_string(), ip),
            ("z1".to_string(), "rb".to_string(), "b.ex.com".to_string(), ip),
        ]
    );

    assert_eq!(poll(&mut w, ip), None);
    assert_eq!(p.updates.len(), 2);
    assert_eq!(u.phase(), Phase::Waiting);
}

#[test]
fn persisted_address_suppresses_event_until_it_changes() {
    let conf = config(&["a.ex.com", "b.ex.com"], &["A"]);
    let stored = Some(Ipv4::new(2, 2, 2, 2));
    let mut w = Watch::new(WatchCache::new("cache.yaml".to_string(), stored), &conf);
    let mut u = DnsUpdater::new(&conf, &zones()).ok().unwrap();
    let mut p = two_domains();

    assert_eq!(poll(&mut w, Ipv4::new(2, 2, 2, 2)), None);
    assert!(p.updates.is_empty());

    let new_ip = Ipv4::new(3, 3, 3, 3);
    assert_eq!(w.on_fetch(Some(new_ip)), WatchAction::Persist(new_ip));
    assert_eq!(w.cache().ipv4(), new_ip);
    assert_eq!(w.on_persisted(new_ip, true), WatchAction::Emit(new_ip));
    p.serve(&mut u, new_ip);
    assert_eq!(p.updates.len(), 2);
    assert!(p.updates.iter().all(|(_, _, _, ip)| *ip == new_ip));
}

#[test]
fn no_updates_without_address_marker() {
    let conf = config(&["a.ex.com", "b.ex.com"], &["CNAME"]);
    let mut w = Watch::new(WatchCache::new("cache.yaml".to_string(), None), &conf);
    let mut u = DnsUpdater::new(&conf, &zones()).ok().unwrap();
    let mut p = two_domains();
    for last in 1..6u8 {
        let ip = Ipv4::new(9, 9, 9, last);
        assert_eq!(poll(&mut w, ip), Some(ip));
        assert!(matches!(p.serve(&mut u, ip), SyncAction::Receive));
    }
    assert!(p.lookups.is_empty());
    assert!(p.updates.is_empty());
}

#[test]
fn domain_without_address_record_is_skipped() {
    let conf = config(&["a.ex.com", "b.ex.com"], &["A"]);
    let mut u = DnsUpdater::new(&conf, &zones()).ok().unwrap();
    let mut p = Provider::new(
        &[
            ("a.ex.com", &[("ra", RecordKind::A)]),
            ("b.ex.com", &[("rb", RecordKind::Cname)]),
        ],
        &[],
    );
    let ip = Ipv4::new(4, 4, 4, 4);
    assert!(matches!(p.serve(&mut u, ip), SyncAction::Receive));
    assert_eq!(p.lookups, vec!["a.ex.com".to_string(), "b.ex.com".to_string()]);
    assert_eq!(
        p.updates,
        vec![("z1".to_string(), "ra".to_string(), "a.ex.com".to_string(), ip)]
    );
}

#[test]
fn failed_listing_skips_domain() {
    let conf = config(&["gone.ex.com", "b.ex.com"], &["A"]);
    let mut u = DnsUpdater::new(&conf, &zones()).ok().unwrap();
    let mut p = two_domains();
    let ip = Ipv4::new(5, 5, 5, 5);
    assert!(matches!(p.serve(&mut u, ip), SyncAction::Receive));
    assert_eq!(p.updates.len(), 1);
    assert_eq!(p.updates[0].2, "b.ex.com");
}

#[test]
fn failed_update_stops_batch_and_shuts_down() {
    let conf = config(&["a.ex.com", "b.ex.com"], &["A"]);
    let mut u = DnsUpdater::new(&conf, &zones()).ok().unwrap();
    let mut p = Provider::new(
        &[
            ("a.ex.com", &[("ra", RecordKind::A)]),
            ("b.ex.com", &[("rb", RecordKind::A)]),
        ],
        &["a.ex.com"],
    );
    let ip = Ipv4::new(6, 6, 6, 6);
    assert!(matches!(p.serve(&mut u, ip), SyncAction::Shutdown));
    assert_eq!(p.lookups, vec!["a.ex.com".to_string()]);
    assert_eq!(p.updates.len(), 1);
    assert_eq!(u.phase(), Phase::Stopped);
}

#[test]
fn no_domains_means_no_calls() {
    let conf = config(&[], &["A"]);
    let mut u = DnsUpdater::new(&conf, &zones()).ok().unwrap();
    let mut p = two_domains();
    assert!(matches!(p.serve(&mut u, Ipv4::new(7, 7, 7, 7)), SyncAction::Receive));
    assert!(p.lookups.is_empty());
}

#[test]
fn fetch_failure_shuts_watcher_down() {
    let conf = config(&["a.ex.com"], &["A"]);
    let mut w = Watch::new(WatchCache::new("cache.yaml".to_string(), None), &conf);
    assert_eq!(w.interval(), 300);
    assert_eq!(w.on_fetch(None), WatchAction::Shutdown);
    assert!(w.is_stopped());
}

#[test]
fn persist_failure_shuts_watcher_down() {
    let conf = config(&["a.ex.com"], &["A"]);
    let mut w = Watch::new(WatchCache::new("cache.yaml".to_string(), None), &conf);
    let ip = Ipv4::new(1, 2, 3, 4);
    assert_eq!(w.on_fetch(Some(ip)), WatchAction::Persist(ip));
    assert_eq!(w.on_persisted(ip, false), WatchAction::Shutdown);
    assert!(w.is_stopped());
}
