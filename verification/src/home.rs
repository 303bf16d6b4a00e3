use vstd::prelude::*;

use crate::error::Error;
use crate::room::Room;

verus! {

/// One room as a home holds it: the room itself under its home-unique name.
#[derive(Debug, Clone, PartialEq, Eq)]
pub struct RoomEntry {
    pub name: String,
    pub room: Room,
}

/// A home: a named collection of uniquely named rooms.
#[derive(Debug, Clone, PartialEq, Eq)]
pub struct Home {
    pub name: String,
    pub rooms: Vec<RoomEntry>,
}

impl Home {
    /// The home's invariant: no two rooms share a name, and every room
    /// satisfies its own invariant.
    pub open spec fn wf(self) -> bool {
        &&& forall|i: int, j: int|
            0 <= i < j < self.rooms@.len() ==> self.rooms@[i].name@ != self.rooms@[j].name@
        &&& forall|i: int| 0 <= i < self.rooms@.len() ==> (#[trigger] self.rooms@[i].room).wf()
    }

    /// Whether the home holds a room under this name.
    pub open spec fn has_room(self, n: Seq<char>) -> bool {
        exists|i: int| 0 <= i < self.rooms@.len() && self.rooms@[i].name@ == n
    }

    /// The position of the room with this name.
    pub open spec fn room_index(self, n: Seq<char>) -> int
        recommends
            self.has_room(n),
    {
        choose|i: int| 0 <= i < self.rooms@.len() && self.rooms@[i].name@ == n
    }

    /// The room stored under this name.
    pub open spec fn room_named(self, n: Seq<char>) -> Room
        recommends
            self.has_room(n),
    {
        self.rooms@[self.room_index(n)].room
    }

    /// An empty home with the given name.
    pub fn new(name: String) -> (r: Home)
        ensures
            r.name@ == name@,
            r.rooms@ =~= Seq::<RoomEntry>::empty(),
            r.wf(),
    {
        Home { name, rooms: Vec::new() }
    }

    /// Adds a room under a name. Fails with `DuplicateName`, leaving the
    /// home unchanged, exactly when the name is taken; otherwise the room
    /// is appended and the call succeeds.
    #[verifier::loop_isolation(false)]
    pub fn add_room(&mut self, name: String, room: Room) -> (r: Result<(), Error>)
        requires
            old(self).wf(),
            room.wf(),
        ensures
            final(self).wf(),
            final(self).name@ == old(self).name@,
            old(self).has_room(name@) ==> r == Err::<(), Error>(Error::DuplicateName) && *final(
            self) == *old(self),
            !old(self).has_room(name@) ==> r == Ok::<(), Error>(()) && final(self).rooms@ == old(
                self,
            ).rooms@.push((RoomEntry { name, room })),
            r is Ok ==> forall|m: Seq<char>|
                final(self).has_room(m) <==> (old(self).has_room(m) || m == name@),
    {
        let n = self.rooms.len();
        let mut i: usize = 0;
        while i < n
            invariant
                i <= n,
                n == self.rooms@.len(),
                *self == *old(self),
                forall|j: int| 0 <= j < i ==> self.rooms@[j].name@ != name@,
            decreases n - i,
        {
            if self.rooms[i].name == name {
                proof {
                    assert(self.rooms@[i as int].name@ == name@);
                    assert(old(self).has_room(name@));
                }
                return Err(Error::DuplicateName);
            }
            i += 1;
        }
        self.rooms.push(RoomEntry { name, room });
        proof {
            let pushed = self.rooms@;
            let prior = old(self).rooms@;
            assert forall|a: int, b: int| 0 <= a < b < pushed.len() implies pushed[a].name@
                != pushed[b].name@ by {
                if b < prior.len() {
                } else {
                    assert(pushed[b] == (RoomEntry { name, room }));
                }
            }
            assert forall|m: Seq<char>| self.has_room(m) implies (old(self).has_room(m) || m
                == name@) by {
                let w = choose|i: int| 0 <= i < pushed.len() && pushed[i].name@ == m;
                if w < prior.len() {
                    assert(prior[w].name@ == m);
                }
            }
            assert forall|m: Seq<char>| old(self).has_room(m) implies self.has_room(m) by {
                let w = choose|i: int| 0 <= i < prior.len() && prior[i].name@ == m;
                assert(pushed[w].name@ == m);
            }
            assert(self.has_room(name@)) by {
                assert(pushed[prior.len() as int].name@ == name@);
            }
        }
        Ok(())
    }

    /// Removes the room with this name, and with it all its devices. Fails
    /// with `NotFound`, leaving the home unchanged, exactly when no room
    /// has the name; otherwise that entry alone is removed.
    #[verifier::loop_isolation(false)]
    pub fn delete_room(&mut self, name: &str) -> (r: Result<(), Error>)
        requires
            old(self).wf(),
        ensures
            final(self).wf(),
            final(self).name@ == old(self).name@,
            !old(self).has_room(name@) ==> r == Err::<(), Error>(Error::NotFound) && *final(self)
                == *old(self),
            old(self).has_room(name@) ==> r == Ok::<(), Error>(()) && final(self).rooms@ == old(
                self,
            ).rooms@.remove(old(self).room_index(name@)),
            r is Ok ==> !final(self).has_room(name@) && forall|m: Seq<char>|
                m != name@ ==> (final(self).has_room(m) <==> old(self).has_room(m)),
    {
        let key = name.to_owned();
        let n = self.rooms.len();
        let mut i: usize = 0;
        while i < n
            invariant
                i <= n,
                n == self.rooms@.len(),
                *self == *old(self),
                forall|j: int| 0 <= j < i ==> self.rooms@[j].name@ != name@,
            decreases n - i,
        {
            if self.rooms[i].name == key {
                proof {
                    assert(self.rooms@[i as int].name@ == name@);
                    assert(old(self).has_room(name@));
                    let prior = old(self).rooms@;
                    let w = old(self).room_index(name@);
                    assert(0 <= w < prior.len() && prior[w].name@ == name@);
                    assert(w == i);
                }
                self.rooms.remove(i);
                proof {
                    let prior = old(self).rooms@;
                    let now = self.rooms@;
                    prior.remove_ensures(i as int);
                    assert forall|a: int, b: int| 0 <= a < b < now.len() implies now[a].name@
                        != now[b].name@ by {
                        if b < i {
                            assert(now[a] == prior[a] && now[b] == prior[b]);
                        } else if a < i {
                            assert(now[a] == prior[a] && now[b] == prior[b + 1]);
                        } else {
                            assert(now[a] == prior[a + 1] && now[b] == prior[b + 1]);
                        }
                    }
                    assert forall|a: int| 0 <= a < now.len() implies (#[trigger] now[a].room).wf()
                        by {
                        if a < i {
                            assert(now[a] == prior[a]);
                        } else {
                            assert(now[a] == prior[a + 1]);
                        }
                    }
                    assert forall|m: Seq<char>| self.has_room(m) implies old(self).has_room(m) && m
                        != name@ by {
                        let w = choose|j: int| 0 <= j < now.len() && now[j].name@ == m;
                        if w < i {
                            assert(now[w] == prior[w]);
                            assert(prior[w].name@ == m);
                        } else {
                            assert(now[w] == prior[w + 1]);
                            assert(prior[w + 1].name@ == m);
                        }
                    }
                    assert forall|m: Seq<char>|
                        old(self).has_room(m) && m != name@ implies self.has_room(m) by {
                        let w = choose|j: int| 0 <= j < prior.len() && prior[j].name@ == m;
                        if w < i {
                            assert(now[w] == prior[w]);
                            assert(now[w].name@ == m);
                        } else {
                            assert(w > i);
                            assert(now[w - 1] == prior[w]);
                            assert(now[w - 1].name@ == m);
                        }
                    }
                }
                return Ok(());
            }
            i += 1;
        }
        Err(Error::NotFound)
    }

    /// Looks the room with this name up; absent exactly when no room has
    /// the name.
    #[verifier::loop_isolation(false)]
    pub fn room(&self, name: &str) -> (r: Option<&Room>)
        requires
            self.wf(),
        ensures
            match r {
                Some(room) => self.has_room(name@) && *room == self.room_named(name@)
                    && room.wf(),
                None => !self.has_room(name@),
            },
    {
        let key = name.to_owned();
        let n = self.rooms.len();
        let mut i: usize = 0;
        while i < n
            invariant
                i <= n,
                n == self.rooms@.len(),
                forall|j: int| 0 <= j < i ==> self.rooms@[j].name@ != name@,
            decreases n - i,
        {
            if self.rooms[i].name == key {
                proof {
                    assert(self.rooms@[i as int].name@ == name@);
                    assert(self.has_room(name@));
                    let w = self.room_index(name@);
                    assert(0 <= w < self.rooms@.len() && self.rooms@[w].name@ == name@);
                    assert(w == i);
                }
                return Some(&self.rooms[i].room);
            }
            i += 1;
        }
        None
    }

    /// Mutable lookup of the room with this name; absent exactly when no
    /// room has the name. Until the borrow ends, the home's rooms are the
    /// old ones with whatever the caller leaves behind the reference in
    /// place of the found room.
    #[verifier::loop_isolation(false)]
    pub fn room_mut(&mut self, name: &str) -> (r: Option<&mut Room>)
        requires
            old(self).wf(),
        ensures
            match r {
                Some(room_ref) => old(self).has_room(name@) && *room_ref == old(self).room_named(
                    name@,
                ) && final(self).rooms@ == old(self).rooms@.update(
                    old(self).room_index(name@),
                    (RoomEntry {
                        name: old(self).rooms@[old(self).room_index(name@)].name,
                        room: *final(room_ref),
                    }),
                ),
                None => !old(self).has_room(name@) && *final(self) == *old(self),
            },
    {
        let key = name.to_owned();
        let n = self.rooms.len();
        let mut i: usize = 0;
        while i < n
            invariant
                i <= n,
                n == self.rooms@.len(),
                *self == *old(self),
                forall|j: int| 0 <= j < i ==> self.rooms@[j].name@ != name@,
            decreases n - i,
        {
            if self.rooms[i].name == key {
                proof {
                    assert(self.rooms@[i as int].name@ == name@);
                    assert(old(self).has_room(name@));
                    let w = old(self).room_index(name@);
                    assert(0 <= w < self.rooms@.len() && self.rooms@[w].name@ == name@);
                    assert(w == i);
                }
                return Some(&mut self.rooms[i].room);
            }
            i += 1;
        }
        None
    }

    /// The names of the rooms the home holds, in insertion order.
    pub fn room_names(&self) -> (r: Vec<String>)
        ensures
            r@.len() == self.rooms@.len(),
            forall|j: int| 0 <= j < r@.len() ==> r@[j]@ == self.rooms@[j].name@,
    {
        let n = self.rooms.len();
        let mut names: Vec<String> = Vec::new();
        let mut i: usize = 0;
        while i < n
            invariant
                i <= n,
                n == self.rooms@.len(),
                names@.len() == i,
                forall|j: int| 0 <= j < i ==> names@[j]@ == self.rooms@[j].name@,
            decreases n - i,
        {
            names.push(self.rooms[i].name.clone());
            i += 1;
        }
        names
    }
}

/// The names a home reports are exactly the names of the rooms it holds: a
/// name occurs among the reported names if and only if the home has a room
/// under it. The premises are what `room_names` ensures of its result.
pub proof fn lemma_room_names_exact(home: Home, names: Seq<Seq<char>>)
    requires
        names.len() == home.rooms@.len(),
        forall|j: int| 0 <= j < names.len() ==> names[j] == home.rooms@[j].name@,
    ensures
        forall|n: Seq<char>| names.contains(n) <==> home.has_room(n),
{
    assert forall|n: Seq<char>| names.contains(n) implies home.has_room(n) by {
        let w = choose|j: int| 0 <= j < names.len() && names[j] == n;
        assert(home.rooms@[w].name@ == n);
    }
    assert forall|n: Seq<char>| home.has_room(n) implies names.contains(n) by {
        let w = choose|j: int| 0 <= j < home.rooms@.len() && home.rooms@[j].name@ == n;
        assert(names[w] == n);
    }
}

} // verus!
