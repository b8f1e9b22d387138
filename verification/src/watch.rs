//! Memory watch points of the debugger: addresses whose reads or writes stop the machine.
use std::collections::HashSet;
use vstd::prelude::*;

verus! {

broadcast use vstd::std_specs::hash::group_hash_axioms;

/// What a watch command did on each side: `None` where the command leaves that side alone,
/// `Some(changed)` where it applied, `changed` telling whether the set changed.
#[derive(Debug, Clone, Copy, PartialEq, Eq, Structural)]
pub struct WatchOutcome {
    pub read: Option<bool>,
    pub write: Option<bool>,
}

/// The read and the write watch points.
pub struct Watches {
    rd: HashSet<u16>,
    wr: HashSet<u16>,
}

impl View for Watches {
    type V = (Set<u16>, Set<u16>);

    closed spec fn view(&self) -> (Set<u16>, Set<u16>) {
        (self.rd@, self.wr@)
    }
}

impl Watches {
    /// No watch points.
    pub fn new() -> (r: Self)
        ensures
            r@ == (Set::<u16>::empty(), Set::<u16>::empty()),
    {
        Watches { rd: HashSet::new(), wr: HashSet::new() }
    }

    /// Adds a watch at `addr` on reads unless `writeonly`, and on writes unless `readonly`.
    /// With both flags nothing is set and `None` is returned.
    pub fn add(&mut self, addr: u16, readonly: bool, writeonly: bool) -> (r: Option<WatchOutcome>)
        ensures
            readonly && writeonly ==> r is None && final(self)@ == old(self)@,
            !(readonly && writeonly) ==> r == Some(
                WatchOutcome {
                    read: if writeonly {
                        None
                    } else {
                        Some(!old(self)@.0.contains(addr))
                    },
                    write: if readonly {
                        None
                    } else {
                        Some(!old(self)@.1.contains(addr))
                    },
                },
            ) && final(self)@ == (
                if writeonly {
                    old(self)@.0
                } else {
                    old(self)@.0.insert(addr)
                },
                if readonly {
                    old(self)@.1
                } else {
                    old(self)@.1.insert(addr)
                },
            ),
    {
        if readonly && writeonly {
            return None;
        }
        let read = if !writeonly {
            Some(self.rd.insert(addr))
        } else {
            None
        };
        let write = if !readonly {
            Some(self.wr.insert(addr))
        } else {
            None
        };
        Some(WatchOutcome { read, write })
    }

    /// Removes the watch at `addr` on reads unless `writeonly`, and on writes unless
    /// `readonly`. With both flags nothing is unset and `None` is returned.
    pub fn remove(&mut self, addr: u16, readonly: bool, writeonly: bool) -> (r: Option<WatchOutcome>)
        ensures
            readonly && writeonly ==> r is None && final(self)@ == old(self)@,
            !(readonly && writeonly) ==> r == Some(
                WatchOutcome {
                    read: if writeonly {
                        None
                    } else {
                        Some(old(self)@.0.contains(addr))
                    },
                    write: if readonly {
                        None
                    } else {
                        Some(old(self)@.1.contains(addr))
                    },
                },
            ) && final(self)@ == (
                if writeonly {
                    old(self)@.0
                } else {
                    old(self)@.0.remove(addr)
                },
                if readonly {
                    old(self)@.1
                } else {
                    old(self)@.1.remove(addr)
                },
            ),
    {
        if readonly && writeonly {
            return None;
        }
        let read = if !writeonly {
            Some(self.rd.remove(&addr))
        } else {
            None
        };
        let write = if !readonly {
            Some(self.wr.remove(&addr))
        } else {
            None
        };
        Some(WatchOutcome { read, write })
    }

    /// Whether a read of `addr` is watched.
    pub fn watches_read(&self, addr: u16) -> (r: bool)
        ensures
            r == self@.0.contains(addr),
    {
        self.rd.contains(&addr)
    }

    /// Whether a write of `addr` is watched.
    pub fn watches_write(&self, addr: u16) -> (r: bool)
        ensures
            r == self@.1.contains(addr),
    {
        self.wr.contains(&addr)
    }
}

} // verus!
