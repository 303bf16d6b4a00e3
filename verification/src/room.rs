use vstd::prelude::*;

use crate::device::{Device, DeviceKind};
use crate::error::Error;

verus! {

/// One device as a room holds it: the device itself under its
/// room-unique name, with a free-form description.
#[derive(Debug, Clone, PartialEq, Eq)]
pub struct DeviceEntry {
    pub name: String,
    pub description: String,
    pub device: Device,
}

/// A room: a collection of devices with unique names and unique kinds. At
/// most one device of each kind may be present at a time.
#[derive(Debug, Clone, PartialEq, Eq)]
pub struct Room {
    pub devices: Vec<DeviceEntry>,
}

impl Room {
    /// The room's invariant: no two devices share a name, and no two share
    /// a kind.
    pub open spec fn wf(self) -> bool {
        forall|i: int, j: int|
            0 <= i < j < self.devices@.len() ==> self.devices@[i].name@ != self.devices@[j].name@
                && self.devices@[i].device.kind_spec() != self.devices@[j].device.kind_spec()
    }

    /// Whether the room holds a device under this name.
    pub open spec fn has_device(self, n: Seq<char>) -> bool {
        exists|i: int| 0 <= i < self.devices@.len() && self.devices@[i].name@ == n
    }

    /// Whether the room holds a device of this kind.
    pub open spec fn has_kind(self, k: DeviceKind) -> bool {
        exists|i: int| 0 <= i < self.devices@.len() && self.devices@[i].device.kind_spec() == k
    }

    /// The position of the device with this name.
    pub open spec fn device_index(self, n: Seq<char>) -> int
        recommends
            self.has_device(n),
    {
        choose|i: int| 0 <= i < self.devices@.len() && self.devices@[i].name@ == n
    }

    /// The entry stored under this name.
    pub open spec fn entry_named(self, n: Seq<char>) -> DeviceEntry
        recommends
            self.has_device(n),
    {
        self.devices@[self.device_index(n)]
    }

    /// An empty room.
    pub fn new() -> (r: Room)
        ensures
            r.devices@ =~= Seq::<DeviceEntry>::empty(),
            r.wf(),
    {
        Room { devices: Vec::new() }
    }

    /// Adds a device under a name. Fails with `DuplicateName` if the name is
    /// taken, else with `DuplicateType` if a device of the same kind is
    /// already present; on either failure the room is unchanged. Otherwise
    /// the entry is appended and the call succeeds.
    #[verifier::loop_isolation(false)]
    pub fn add_device(&mut self, name: String, description: String, device: Device) -> (r: Result<
        (),
        Error,
    >)
        requires
            old(self).wf(),
        ensures
            final(self).wf(),
            old(self).has_device(name@) ==> r == Err::<(), Error>(Error::DuplicateName) && *final(
            self) == *old(self),
            !old(self).has_device(name@) && old(self).has_kind(device.kind_spec()) ==> r == Err::<
                (),
                Error,
            >(Error::DuplicateType) && *final(self) == *old(self),
            !old(self).has_device(name@) && !old(self).has_kind(device.kind_spec()) ==> r == Ok::<
                (),
                Error,
            >(()) && final(self).devices@ == old(self).devices@.push(
                (DeviceEntry { name, description, device }),
            ),
            r is Ok ==> forall|m: Seq<char>|
                final(self).has_device(m) <==> (old(self).has_device(m) || m == name@),
    {
        let n = self.devices.len();
        let mut i: usize = 0;
        while i < n
            invariant
                i <= n,
                n == self.devices@.len(),
                *self == *old(self),
                forall|j: int| 0 <= j < i ==> self.devices@[j].name@ != name@,
            decreases n - i,
        {
            if self.devices[i].name == name {
                proof {
                    assert(self.devices@[i as int].name@ == name@);
                    assert(old(self).has_device(name@));
                }
                return Err(Error::DuplicateName);
            }
            i += 1;
        }
        let kind = device.kind();
        let mut i: usize = 0;
        while i < n
            invariant
                i <= n,
                n == self.devices@.len(),
                *self == *old(self),
                forall|j: int| 0 <= j < i ==> self.devices@[j].device.kind_spec() != kind,
            decreases n - i,
        {
            if self.devices[i].device.kind() == kind {
                proof {
                    assert(self.devices@[i as int].device.kind_spec() == device.kind_spec());
                    assert(old(self).has_kind(device.kind_spec()));
                    assert(!old(self).has_device(name@));
                }
                return Err(Error::DuplicateType);
            }
            i += 1;
        }
        self.devices.push(DeviceEntry { name, description, device });
        proof {
            let pushed = self.devices@;
            let prior = old(self).devices@;
            assert forall|a: int, b: int| 0 <= a < b < pushed.len() implies pushed[a].name@
                != pushed[b].name@ && pushed[a].device.kind_spec()
                != pushed[b].device.kind_spec() by {
                if b < prior.len() {
                } else {
                    assert(pushed[b] == (DeviceEntry { name, description, device }));
                }
            }
            assert forall|m: Seq<char>| self.has_device(m) implies (old(self).has_device(m) || m
                == name@) by {
                let w = choose|i: int| 0 <= i < pushed.len() && pushed[i].name@ == m;
                if w < prior.len() {
                    assert(prior[w].name@ == m);
                }
            }
            assert forall|m: Seq<char>| old(self).has_device(m) implies self.has_device(m) by {
                let w = choose|i: int| 0 <= i < prior.len() && prior[i].name@ == m;
                assert(pushed[w].name@ == m);
            }
            assert(self.has_device(name@)) by {
                assert(pushed[prior.len() as int].name@ == name@);
            }
        }
        Ok(())
    }

    /// Removes the device with this name. Fails with `NotFound`, leaving
    /// the room unchanged, exactly when no device has the name; otherwise
    /// that entry alone is removed.
    #[verifier::loop_isolation(false)]
    pub fn delete_device(&mut self, name: &str) -> (r: Result<(), Error>)
        requires
            old(self).wf(),
        ensures
            final(self).wf(),
            !old(self).has_device(name@) ==> r == Err::<(), Error>(Error::NotFound) && *final(self)
                == *old(self),
            old(self).has_device(name@) ==> r == Ok::<(), Error>(()) && final(self).devices@ == old(
                self,
            ).devices@.remove(old(self).device_index(name@)),
            r is Ok ==> !final(self).has_device(name@) && forall|m: Seq<char>|
                m != name@ ==> (final(self).has_device(m) <==> old(self).has_device(m)),
    {
        let key = name.to_owned();
        let n = self.devices.len();
        let mut i: usize = 0;
        while i < n
            invariant
                i <= n,
                n == self.devices@.len(),
                *self == *old(self),
                forall|j: int| 0 <= j < i ==> self.devices@[j].name@ != name@,
            decreases n - i,
        {
            if self.devices[i].name == key {
                proof {
                    assert(self.devices@[i as int].name@ == name@);
                    assert(old(self).has_device(name@));
                    let prior = old(self).devices@;
                    let w = old(self).device_index(name@);
                    assert(0 <= w < prior.len() && prior[w].name@ == name@);
                    assert(w == i);
                }
                self.devices.remove(i);
                proof {
                    let prior = old(self).devices@;
                    let now = self.devices@;
                    prior.remove_ensures(i as int);
                    assert forall|a: int, b: int| 0 <= a < b < now.len() implies now[a].name@
                        != now[b].name@ && now[a].device.kind_spec()
                        != now[b].device.kind_spec() by {
                        if b < i {
                            assert(now[a] == prior[a] && now[b] == prior[b]);
                        } else if a < i {
                            assert(now[a] == prior[a] && now[b] == prior[b + 1]);
                        } else {
                            assert(now[a] == prior[a + 1] && now[b] == prior[b + 1]);
                        }
                    }
                    assert forall|m: Seq<char>| self.has_device(m) implies old(self).has_device(m)
                        && m != name@ by {
                        let w = choose|j: int| 0 <= j < now.len() && now[j].name@ == m;
                        if w < i {
                            assert(now[w] == prior[w]);
                            assert(prior[w].name@ == m);
                        } else {
                            assert(now[w] == prior[w + 1]);
                            assert(prior[w + 1].name@ == m);
                        }
                    }
                    assert forall|m: Seq<char>|
                        old(self).has_device(m) && m != name@ implies self.has_device(m) by {
                        let w = choose|j: int| 0 <= j < prior.len() && prior[j].name@ == m;
                        if w < i {
                            assert(now[w] == prior[w]);
                            assert(now[w].name@ == m);
                        } else {
                            assert(w > i);
                            assert(now[w - 1] == prior[w]);
                            assert(now[w - 1].name@ == m);
                        }
                    }
                }
                return Ok(());
            }
            i += 1;
        }
        Err(Error::NotFound)
    }

    /// Looks the device with this name up; absent exactly when no device
    /// has the name.
    #[verifier::loop_isolation(false)]
    pub fn device(&self, name: &str) -> (r: Option<&Device>)
        requires
            self.wf(),
        ensures
            match r {
                Some(d) => self.has_device(name@) && *d == self.entry_named(name@).device,
                None => !self.has_device(name@),
            },
    {
        let key = name.to_owned();
        let n = self.devices.len();
        let mut i: usize = 0;
        while i < n
            invariant
                i <= n,
                n == self.devices@.len(),
                self.wf(),
                forall|j: int| 0 <= j < i ==> self.devices@[j].name@ != name@,
            decreases n - i,
        {
            if self.devices[i].name == key {
                proof {
                    let w = self.device_index(name@);
                    assert(self.devices@[i as int].name@ == name@);
                    assert(0 <= w < self.devices@.len() && self.devices@[w].name@ == name@);
                    assert(w == i);
                }
                return Some(&self.devices[i].device);
            }
            i += 1;
        }
        None
    }

    /// Mutable lookup of the device with this name; absent exactly when no
    /// device has the name. Until the borrow ends, the room's devices are
    /// the old ones with whatever the caller leaves behind the reference in
    /// place of the found device.
    #[verifier::loop_isolation(false)]
    pub fn device_mut(&mut self, name: &str) -> (r: Option<&mut Device>)
        requires
            old(self).wf(),
        ensures
            match r {
                Some(device_ref) => old(self).has_device(name@) && *device_ref == old(
                    self,
                ).entry_named(name@).device && final(self).devices@ == old(self).devices@.update(
                    old(self).device_index(name@),
                    (DeviceEntry {
                        name: old(self).entry_named(name@).name,
                        description: old(self).entry_named(name@).description,
                        device: *final(device_ref),
                    }),
                ),
                None => !old(self).has_device(name@) && *final(self) == *old(self),
            },
    {
        let key = name.to_owned();
        let n = self.devices.len();
        let mut i: usize = 0;
        while i < n
            invariant
                i <= n,
                n == self.devices@.len(),
                *self == *old(self),
                forall|j: int| 0 <= j < i ==> self.devices@[j].name@ != name@,
            decreases n - i,
        {
            if self.devices[i].name == key {
                proof {
                    assert(self.devices@[i as int].name@ == name@);
                    assert(self.has_device(name@));
                    let w = self.device_index(name@);
                    assert(0 <= w < self.devices@.len() && self.devices@[w].name@ == name@);
                    assert(w == i);
                }
                return Some(&mut self.devices[i].device);
            }
            i += 1;
        }
        None
    }

    /// The names of the devices the room holds, in insertion order.
    pub fn device_names(&self) -> (r: Vec<String>)
        ensures
            r@.len() == self.devices@.len(),
            forall|j: int| 0 <= j < r@.len() ==> r@[j]@ == self.devices@[j].name@,
    {
        let n = self.devices.len();
        let mut names: Vec<String> = Vec::new();
        let mut i: usize = 0;
        while i < n
            invariant
                i <= n,
                n == self.devices@.len(),
                names@.len() == i,
                forall|j: int| 0 <= j < i ==> names@[j]@ == self.devices@[j].name@,
            decreases n - i,
        {
            names.push(self.devices[i].name.clone());
            i += 1;
        }
        names
    }
}

impl Default for Room {
    /// An empty room.
    fn default() -> (r: Room)
        ensures
            r.devices@ =~= Seq::<DeviceEntry>::empty(),
            r.wf(),
    {
        Room { devices: Vec::new() }
    }
}

/// The names a room reports are exactly the names of the devices it holds:
/// a name occurs among the reported names if and only if the room has a
/// device under it. The premises are what `device_names` ensures of its
/// result.
pub proof fn lemma_device_names_exact(room: Room, names: Seq<Seq<char>>)
    requires
        names.len() == room.devices@.len(),
        forall|j: int| 0 <= j < names.len() ==> names[j] == room.devices@[j].name@,
    ensures
        forall|n: Seq<char>| names.contains(n) <==> room.has_device(n),
{
    assert forall|n: Seq<char>| names.contains(n) implies room.has_device(n) by {
        let w = choose|j: int| 0 <= j < names.len() && names[j] == n;
        assert(room.devices@[w].name@ == n);
    }
    assert forall|n: Seq<char>| room.has_device(n) implies names.contains(n) by {
        let w = choose|j: int| 0 <= j < room.devices@.len() && room.devices@[j].name@ == n;
        assert(names[w] == n);
    }
}

} // verus!
