use vstd::prelude::*;

use crate::addr::Ipv4;
use crate::cache::{change_of, WatchCache};
use crate::config::Config;

verus! {

/// What the watcher asks of whoever runs its timer and its I/O.
#[derive(Clone, Copy, Debug, PartialEq, Eq, Structural)]
pub enum WatchAction {
    /// Nothing changed: wait for the next tick.
    Wait,
    /// The address changed to this one: write the cache record, then report
    /// whether that worked.
    Persist(Ipv4),
    /// Hand a change event for this address to the syncer.
    Emit(Ipv4),
    /// Stop the process.
    Shutdown,
}

/// Polls the public address on a fixed interval and turns what it sees into
/// change events, through the change cache. Any fetch or write failure stops
/// it for good.
pub struct Watch {
    interval: u64,
    cache: WatchCache,
    stopped: bool,
}

impl Watch {
    /// The poll interval, in seconds.
    pub closed spec fn period(&self) -> u64 {
        self.interval
    }

    pub closed spec fn cached(&self) -> WatchCache {
        self.cache
    }

    /// Whether a failure has stopped the watcher.
    pub closed spec fn halted(&self) -> bool {
        self.stopped
    }

    /// A running watcher over `cache`, polling every `conf.interval` seconds.
    pub fn new(cache: WatchCache, conf: &Config) -> (r: Watch)
        ensures
            r.period() == conf.interval,
            r.cached() == cache,
            !r.halted(),
    {
        Watch { interval: conf.interval, cache, stopped: false }
    }

    pub fn interval(&self) -> (r: u64)
        ensures
            r == self.period(),
    {
        self.interval
    }

    pub fn cache(&self) -> (r: &WatchCache)
        ensures
            *r == self.cached(),
    {
        &self.cache
    }

    pub fn is_stopped(&self) -> (r: bool)
        ensures
            r == self.halted(),
    {
        self.stopped
    }

    /// The outcome of one poll arrives (`None`: the address could not be
    /// fetched or parsed). A failure stops the watcher; an address goes
    /// through the cache, and a change is to be persisted.
    pub fn on_fetch(&mut self, fetched: Option<Ipv4>) -> (r: WatchAction)
        requires
            !old(self).halted(),
        ensures
            final(self).period() == old(self).period(),
            match fetched {
                None => {
                    &&& r == WatchAction::Shutdown
                    &&& final(self).halted()
                    &&& final(self).cached() == old(self).cached()
                },
                Some(ip) => {
                    &&& !final(self).halted()
                    &&& final(self).cached().held() == ip
                    &&& final(self).cached().file() == old(self).cached().file()
                    &&& r == match change_of(old(self).cached().held(), ip) {
                        Some(new_ip) => WatchAction::Persist(new_ip),
                        None => WatchAction::Wait,
                    }
                },
            },
    {
        match fetched {
            None => {
                self.stopped = true;
                WatchAction::Shutdown
            },
            Some(ip) => match self.cache.put(ip) {
                Some(new_ip) => WatchAction::Persist(new_ip),
                None => WatchAction::Wait,
            },
        }
    }

    /// Whether the cache record for `ip` was written arrives. Once it is, the
    /// change is handed on; a write failure stops the watcher.
    pub fn on_persisted(&mut self, ip: Ipv4, written: bool) -> (r: WatchAction)
        requires
            !old(self).halted(),
        ensures
            final(self).period() == old(self).period(),
            final(self).cached() == old(self).cached(),
            final(self).halted() == !written,
            r == (if written {
                WatchAction::Emit(ip)
            } else {
                WatchAction::Shutdown
            }),
    {
        if written {
            WatchAction::Emit(ip)
        } else {
            self.stopped = true;
            WatchAction::Shutdown
        }
    }
}

} // verus!
