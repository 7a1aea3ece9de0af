use vstd::prelude::*;

verus! {

/// The identity under which a controller is tracked across reconnections.
#[derive(Debug, PartialEq, Eq, Hash, Clone)]
pub struct JoyConSerialNumber(pub String);

/// A tracked controller: its identity and whether it is connected.
#[derive(Debug)]
pub struct RegistryEntry {
    pub serial: JoyConSerialNumber,
    pub connected: bool,
}

/// What one scan asks the caller to do.
#[derive(Debug)]
pub struct ScanPlan {
    /// Entries no longer seen: drop their transport handles.
    pub forget: Vec<usize>,
    /// Disconnected entries seen again, with the index of the sighting:
    /// reopen them in place, then call `mark_reconnected`.
    pub reconnect: Vec<(usize, usize)>,
    /// Sightings of identities never seen before, one per identity: open
    /// them, `register` those that open, and publish them.
    pub open_new: Vec<usize>,
}

/// The controllers known so far, in the order they were first seen. An
/// identity is registered once and never removed; a controller that leaves
/// is only marked disconnected.
#[derive(Debug)]
pub struct DeviceRegistry {
    entries: Vec<RegistryEntry>,
}

pub open spec fn serial_views(s: Seq<JoyConSerialNumber>) -> Seq<Seq<char>> {
    s.map_values(|x: JoyConSerialNumber| x.0@)
}

fn find_serial(list: &Vec<JoyConSerialNumber>, s: &JoyConSerialNumber) -> (r: Option<usize>)
    ensures
        match r {
            Some(d) => d < list@.len() && list@[d as int].0@ == s.0@,
            None => !serial_views(list@).contains(s.0@),
        },
{
    let mut d: usize = 0;
    while d < list.len()
        invariant
            d <= list@.len(),
            forall|j: int| 0 <= j < d ==> list@[j].0@ != s.0@,
        decreases list@.len() - d,
    {
        if list[d].0 == s.0 {
            return Some(d);
        }
        d += 1;
    }
    proof {
        if serial_views(list@).contains(s.0@) {
            let j = choose|j: int| 0 <= j < serial_views(list@).len() && serial_views(list@)[j] == s.0@;
            assert(list@[j].0@ == s.0@);
        }
    }
    None
}

impl DeviceRegistry {
    pub closed spec fn serials(self) -> Seq<Seq<char>> {
        self.entries@.map_values(|e: RegistryEntry| e.serial.0@)
    }

    pub closed spec fn connected(self) -> Seq<bool> {
        self.entries@.map_values(|e: RegistryEntry| e.connected)
    }

    /// Each identity is registered once.
    pub open spec fn wf(self) -> bool {
        &&& self.serials().no_duplicates()
        &&& self.connected().len() == self.serials().len()
    }

    pub fn new() -> (r: DeviceRegistry)
        ensures
            r.wf(),
            r.serials() == Seq::<Seq<char>>::empty(),
    {
        let r = DeviceRegistry { entries: Vec::new() };
        assert(r.serials() =~= Seq::<Seq<char>>::empty());
        r
    }

    pub fn len(&self) -> (r: usize)
        ensures
            r == self.serials().len(),
    {
        self.entries.len()
    }

    pub fn is_connected(&self, i: usize) -> (r: bool)
        requires
            i < self.serials().len(),
        ensures
            r == self.connected()[i as int],
    {
        self.entries[i].connected
    }

    pub fn serial(&self, i: usize) -> (r: &JoyConSerialNumber)
        requires
            i < self.serials().len(),
        ensures
            r.0@ == self.serials()[i as int],
    {
        &self.entries[i].serial
    }

    /// Where `s` is registered, if it is.
    pub fn find(&self, s: &JoyConSerialNumber) -> (r: Option<usize>)
        ensures
            match r {
                Some(i) => i < self.serials().len() && self.serials()[i as int] == s.0@,
                None => !self.serials().contains(s.0@),
            },
    {
        let mut i: usize = 0;
        while i < self.entries.len()
            invariant
                i <= self.entries@.len(),
                forall|j: int| 0 <= j < i ==> self.serials()[j] != s.0@,
            decreases self.entries@.len() - i,
        {
            if self.entries[i].serial.0 == s.0 {
                return Some(i);
            }
            i += 1;
        }
        None
    }

    /// Registers a controller seen for the first time, connected, at the end.
    pub fn register(&mut self, serial: JoyConSerialNumber) -> (r: usize)
        requires
            old(self).wf(),
            !old(self).serials().contains(serial.0@),
        ensures
            final(self).wf(),
            r == old(self).serials().len(),
            registry_grows(*old(self), *final(self)),
            final(self).serials() == old(self).serials().push(serial.0@),
            final(self).connected() == old(self).connected().push(true),
    {
        let r = self.entries.len();
        self.entries.push(RegistryEntry { serial, connected: true });
        assert(self.serials() =~= old(self).serials().push(serial.0@));
        assert(self.connected() =~= old(self).connected().push(true));
        r
    }

    fn set_connected(&mut self, i: usize, connected: bool)
        requires
            old(self).wf(),
            i < old(self).serials().len(),
        ensures
            final(self).wf(),
            final(self).serials() == old(self).serials(),
            final(self).connected() == old(self).connected().update(i as int, connected),
    {
        let serial = JoyConSerialNumber(self.entries[i].serial.0.clone());
        self.entries.set(i, RegistryEntry { serial, connected });
        assert(self.serials() =~= old(self).serials());
        assert(self.connected() =~= old(self).connected().update(i as int, connected));
    }

    /// Records that entry `i` was reopened.
    pub fn mark_reconnected(&mut self, i: usize)
        requires
            old(self).wf(),
            i < old(self).serials().len(),
        ensures
            final(self).wf(),
            registry_grows(*old(self), *final(self)),
            final(self).serials() == old(self).serials(),
            final(self).connected() == old(self).connected().update(i as int, true),
    {
        self.set_connected(i, true);
    }

    /// Classifies the identities a scan found against those registered:
    /// entries not found are marked disconnected and listed to forget;
    /// disconnected entries found again are listed to reopen; identities
    /// never registered are listed to open, once each. Registered entries
    /// are never listed as new.
    pub fn scan(&mut self, detected: &Vec<JoyConSerialNumber>) -> (r: ScanPlan)
        requires
            old(self).wf(),
        ensures
            final(self).wf(),
            registry_grows(*old(self), *final(self)),
            final(self).serials() == old(self).serials(),
            forall|i: int|
                0 <= i < old(self).serials().len() ==> #[trigger] final(self).connected()[i] == (
                old(self).connected()[i] && serial_views(detected@).contains(old(self).serials()[i])),
            forall|k: int|
                0 <= k < r.forget@.len() ==> #[trigger] r.forget@[k] < old(self).serials().len()
                    && !serial_views(detected@).contains(old(self).serials()[r.forget@[k] as int]),
            forall|i: int|
                0 <= i < old(self).serials().len() && !serial_views(detected@).contains(
                    #[trigger] old(self).serials()[i],
                ) ==> r.forget@.contains(i as usize),
            forall|k: int|
                0 <= k < r.reconnect@.len() ==> {
                    let (i, d) = #[trigger] r.reconnect@[k];
                    &&& i < old(self).serials().len()
                    &&& d < detected@.len()
                    &&& detected@[d as int].0@ == old(self).serials()[i as int]
                    &&& !old(self).connected()[i as int]
                },
            forall|i: int|
                0 <= i < old(self).serials().len() && !old(self).connected()[i]
                    && serial_views(detected@).contains(#[trigger] old(self).serials()[i]) ==> exists|
                    k: int,
                | 0 <= k < r.reconnect@.len() && (#[trigger] r.reconnect@[k]).0 == i,
            forall|k: int|
                0 <= k < r.open_new@.len() ==> #[trigger] r.open_new@[k] < detected@.len()
                    && !old(self).serials().contains(detected@[r.open_new@[k] as int].0@),
            forall|d: int|
                0 <= d < detected@.len() && !old(self).serials().contains(
                    (#[trigger] detected@[d]).0@,
                ) ==> exists|k: int|
                    0 <= k < r.open_new@.len() && detected@[(#[trigger] r.open_new@[k]) as int].0@
                        == detected@[d].0@,
            forall|k1: int, k2: int|
                0 <= k1 < k2 < r.open_new@.len() ==> detected@[(#[trigger] r.open_new@[k1]) as int].0@
                    != detected@[(#[trigger] r.open_new@[k2]) as int].0@,
    {
        let ghost old_serials = self.serials();
        let ghost old_connected = self.connected();
        let mut forget: Vec<usize> = Vec::new();
        let mut reconnect: Vec<(usize, usize)> = Vec::new();
        let mut i: usize = 0;
        while i < self.entries.len()
            invariant
                self.wf(),
                old_serials == old(self).serials(),
                old_connected == old(self).connected(),
                self.serials() == old_serials,
                i <= old_serials.len(),
                forall|j: int|
                    0 <= j < old_serials.len() ==> #[trigger] self.connected()[j] == if j < i {
                        old_connected[j] && serial_views(detected@).contains(old_serials[j])
                    } else {
                        old_connected[j]
                    },
                forall|k: int|
                    0 <= k < forget@.len() ==> #[trigger] forget@[k] < i && !serial_views(
                        detected@,
                    ).contains(old_serials[forget@[k] as int]),
                forall|j: int|
                    0 <= j < i && !serial_views(detected@).contains(#[trigger] old_serials[j])
                        ==> forget@.contains(j as usize),
                forall|k: int|
                    0 <= k < reconnect@.len() ==> {
                        let (e, d) = #[trigger] reconnect@[k];
                        &&& e < i
                        &&& d < detected@.len()
                        &&& detected@[d as int].0@ == old_serials[e as int]
                        &&& !old_connected[e as int]
                    },
                forall|j: int|
                    0 <= j < i && !old_connected[j] && serial_views(detected@).contains(
                        #[trigger] old_serials[j],
                    ) ==> exists|k: int| 0 <= k < reconnect@.len() && (#[trigger] reconnect@[k]).0 == j,
            decreases old_serials.len() - i,
        {
            let found = find_serial(detected, &self.entries[i].serial);
            let was_connected = self.entries[i].connected;
            assert(self.connected()[i as int] == was_connected);
            assert(self.serials()[i as int] == self.entries@[i as int].serial.0@);
            let ghost f0 = forget@;
            let ghost r0 = reconnect@;
            match found {
                None => {
                    self.set_connected(i, false);
                    forget.push(i);
                    assert(forget@[forget@.len() - 1] == i);
                },
                Some(d) => {
                    if !was_connected {
                        reconnect.push((i, d));
                        assert(reconnect@[reconnect@.len() - 1].0 == i);
                    }
                },
            }
            proof {
                if let Some(d) = found {
                    assert(serial_views(detected@)[d as int] == old_serials[i as int]);
                }
                assert forall|j: int|
                    0 <= j <= i && !serial_views(detected@).contains(
                        #[trigger] old_serials[j],
                    ) implies forget@.contains(j as usize) by {
                    if j < i {
                        let k = choose|k: int| 0 <= k < f0.len() && f0[k] == j as usize;
                        assert(forget@[k] == j as usize);
                    } else {
                        assert(forget@[forget@.len() - 1] == j as usize);
                    }
                }
                assert forall|j: int|
                    0 <= j <= i && !old_connected[j] && serial_views(detected@).contains(
                        #[trigger] old_serials[j],
                    ) implies exists|k: int|
                    0 <= k < reconnect@.len() && (#[trigger] reconnect@[k]).0 == j by {
                    if j < i {
                        let k = choose|k: int| 0 <= k < r0.len() && (#[trigger] r0[k]).0 == j;
                        assert(reconnect@[k] == r0[k]);
                    } else {
                        assert(reconnect@[reconnect@.len() - 1].0 == j);
                    }
                }
            }
            i += 1;
        }
        let mut open_new: Vec<usize> = Vec::new();
        let mut d: usize = 0;
        while d < detected.len()
            invariant
                self.wf(),
                self.serials() == old_serials,
                d <= detected@.len(),
                forall|k: int|
                    0 <= k < open_new@.len() ==> #[trigger] open_new@[k] < d
                        && !old_serials.contains(detected@[open_new@[k] as int].0@),
                forall|j: int|
                    0 <= j < d && !old_serials.contains((#[trigger] detected@[j]).0@) ==> exists|
                        k: int,
                    |
                        0 <= k < open_new@.len() && detected@[(#[trigger] open_new@[k]) as int].0@
                            == detected@[j].0@,
                forall|k1: int, k2: int|
                    0 <= k1 < k2 < open_new@.len() ==> detected@[(#[trigger] open_new@[k1]) as int].0@
                        != detected@[(#[trigger] open_new@[k2]) as int].0@,
            decreases detected@.len() - d,
        {
            let registered = self.find(&detected[d]);
            if registered.is_none() {
                let mut seen = false;
                let mut k: usize = 0;
                while k < open_new.len()
                    invariant
                        k <= open_new@.len(),
                        d < detected@.len(),
                        forall|m: int| 0 <= m < open_new@.len() ==> #[trigger] open_new@[m] < d,
                        seen ==> exists|m: int|
                            0 <= m < open_new@.len() && detected@[(#[trigger] open_new@[m]) as int].0@
                                == detected@[d as int].0@,
                        !seen ==> forall|m: int|
                            0 <= m < k ==> detected@[(#[trigger] open_new@[m]) as int].0@
                                != detected@[d as int].0@,
                    decreases open_new@.len() - k,
                {
                    if detected[open_new[k]].0 == detected[d].0 {
                        seen = true;
                    }
                    k += 1;
                }
                let ghost o0 = open_new@;
                if !seen {
                    open_new.push(d);
                    assert(open_new@[open_new@.len() - 1] == d);
                }
                proof {
                    assert forall|j: int|
                        0 <= j <= d && !old_serials.contains((#[trigger] detected@[j]).0@) implies exists|
                        k: int,
                    |
                        0 <= k < open_new@.len() && detected@[(#[trigger] open_new@[k]) as int].0@
                            == detected@[j].0@ by {
                        if j < d {
                            let k = choose|k: int|
                                0 <= k < o0.len() && detected@[(#[trigger] o0[k]) as int].0@
                                    == detected@[j].0@;
                            assert(open_new@[k] == o0[k]);
                        } else if seen {
                            let k = choose|k: int|
                                0 <= k < o0.len() && detected@[(#[trigger] o0[k]) as int].0@
                                    == detected@[d as int].0@;
                            assert(open_new@[k] == o0[k]);
                        } else {
                            assert(open_new@[open_new@.len() - 1] == d);
                        }
                    }
                }
            }
            d += 1;
        }
        ScanPlan { forget, reconnect, open_new }
    }
}

/// The registry only grows: every operation keeps the identities it had,
/// in place.
pub open spec fn registry_grows(before: DeviceRegistry, after: DeviceRegistry) -> bool {
    before.serials().is_prefix_of(after.serials())
}

/// Along any run of registry operations, an identity known at one point is
/// known at every later point, so no later scan lists it as new: a
/// controller that comes back is a reconnection.
pub proof fn lemma_known_identity_stays_known(
    regs: Seq<DeviceRegistry>,
    i: int,
    j: int,
    serial: Seq<char>,
)
    requires
        0 <= i <= j < regs.len(),
        forall|k: int| 0 <= k < regs.len() - 1 ==> #[trigger] registry_grows(regs[k], regs[k + 1]),
        regs[i].serials().contains(serial),
    ensures
        regs[j].serials().contains(serial),
    decreases j - i,
{
    if j > i {
        lemma_known_identity_stays_known(regs, i, j - 1, serial);
        let k = j - 1;
        assert(registry_grows(regs[k], regs[k + 1]));
        let w = choose|w: int| 0 <= w < regs[k].serials().len() && regs[k].serials()[w] == serial;
        assert(regs[j].serials()[w] == serial);
    }
}

} // verus!
