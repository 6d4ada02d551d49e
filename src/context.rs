//! The families a client has resolved, by name.

use vstd::prelude::*;
use crate::error::Error;
use crate::reply::{decode_reply, family_from_reply};
use crate::socket::resolve_outcome;

verus! {

/// The generic netlink families known to a client: each name at most once,
/// with the id it was resolved to.
pub struct Context {
    families: Vec<(String, u16)>,
    known: Ghost<Map<Seq<char>, u16>>,
}

impl View for Context {
    type V = Map<Seq<char>, u16>;

    closed spec fn view(&self) -> Map<Seq<char>, u16> {
        self.known@
    }
}

impl Context {
    /// Well-formed: the names are unique, and the map holds exactly the
    /// recorded pairs.
    pub closed spec fn wf(&self) -> bool {
        &&& forall|i: int, j: int|
            0 <= i < j < self.families@.len() ==> self.families@[i].0@ != self.families@[j].0@
        &&& forall|i: int|
            0 <= i < self.families@.len() ==> #[trigger] self.known@.contains_key(
                self.families@[i].0@,
            ) && self.known@[self.families@[i].0@] == self.families@[i].1
        &&& forall|n: Seq<char>|
            #[trigger] self.known@.contains_key(n) ==> exists|i: int|
                0 <= i < self.families@.len() && #[trigger] self.families@[i].0@ == n
    }

    /// Constructs a new netlink context, with no family in it.
    pub fn new() -> (c: Context)
        ensures
            c.wf(),
            c@ == Map::<Seq<char>, u16>::empty(),
    {
        Context { families: Vec::new(), known: Ghost(Map::empty()) }
    }

    /// The index of the entry for `key`, if there is one.
    fn position(&self, key: &String) -> (r: Option<usize>)
        requires
            self.wf(),
        ensures
            match r {
                Some(k) => k < self.families@.len() && self.families@[k as int].0@ == key@,
                None => !self@.contains_key(key@),
            },
    {
        let mut i: usize = 0;
        while i < self.families.len()
            invariant
                i <= self.families@.len(),
                forall|j: int| 0 <= j < i ==> self.families@[j].0@ != key@,
            decreases self.families@.len() - i,
        {
            if self.families[i].0 == *key {
                return Some(i);
            }
            i = i + 1;
        }
        None
    }

    /// Adds the family called `name`, resolving its id from the kernel's
    /// reply to the lookup: the datagram of `received` bytes at the start
    /// of `buf`. An id recorded before for the name is replaced. Returns the
    /// id; on an error, the reply's error included, nothing changes.
    pub fn add(&mut self, name: &str, buf: &[u8], received: usize) -> (r: Result<i32, Error>)
        requires
            old(self).wf(),
        ensures
            final(self).wf(),
            received > buf@.len() ==> r == Err::<i32, Error>(Error::TooLong) && final(self)@
                == old(self)@,
            received <= buf@.len() ==> match resolve_outcome(buf@.subrange(0, received as int)) {
                Ok(id) => r == Ok::<i32, Error>(id as i32) && final(self)@ == old(self)@.insert(
                    name@,
                    id,
                ),
                Err(e) => r == Err::<i32, Error>(e) && final(self)@ == old(self)@,
            },
    {
        let id = match decode_reply(buf, received) {
            Ok(rep) => match family_from_reply(&rep) {
                Ok(id) => id,
                Err(e) => {
                    return Err(e);
                },
            },
            Err(e) => {
                return Err(e);
            },
        };
        let key = name.to_owned();
        let ghost known = self.known@.insert(name@, id);
        match self.position(&key) {
            Some(k) => {
                let ghost old_families = self.families@;
                proof {
                    assert forall|i: int| 0 <= i < old_families.len() && i != k implies old_families[i].0@
                        != name@ by {
                        if i < k {
                            assert(old_families[i].0@ != old_families[k as int].0@);
                        } else {
                            assert(old_families[k as int].0@ != old_families[i].0@);
                        }
                    }
                    assert forall|n: Seq<char>| #[trigger] known.contains_key(n) implies exists|i: int|
                        0 <= i < old_families.len() && #[trigger] old_families.update(
                            k as int,
                            (key, id),
                        )[i].0@ == n by {
                        if n == name@ {
                            assert(old_families.update(k as int, (key, id))[k as int].0@ == n);
                        } else {
                            assert(self.known@.contains_key(n));
                            let i = choose|i: int|
                                0 <= i < old_families.len() && #[trigger] old_families[i].0@ == n;
                            assert(old_families.update(k as int, (key, id))[i].0@ == n);
                        }
                    }
                }
                let ghost old_known = self.known@;
                self.families.set(k, (key, id));
                self.known = Ghost(known);
                proof {
                    assert(self.families@ == old_families.update(k as int, (key, id)));
                    assert forall|i: int| 0 <= i < self.families@.len() implies #[trigger] self.known@.contains_key(
                        self.families@[i].0@,
                    ) && self.known@[self.families@[i].0@] == self.families@[i].1 by {
                        if i != k {
                            assert(old_families[i].0@ != name@);
                            assert(old_known.contains_key(old_families[i].0@));
                        }
                    }
                }
            },
            None => {
                let ghost old_families = self.families@;
                proof {
                    assert forall|n: Seq<char>| #[trigger] known.contains_key(n) implies exists|i: int|
                        0 <= i < old_families.len() + 1 && #[trigger] old_families.push((key, id))[i].0@
                            == n by {
                        if n == name@ {
                            assert(old_families.push((key, id))[old_families.len() as int].0@ == n);
                        } else {
                            let i = choose|i: int|
                                0 <= i < old_families.len() && #[trigger] old_families[i].0@ == n;
                            assert(old_families.push((key, id))[i].0@ == n);
                        }
                    }
                }
                let ghost old_known = self.known@;
                self.families.push((key, id));
                self.known = Ghost(known);
                proof {
                    assert(self.families@ == old_families.push((key, id)));
                    assert forall|i: int| 0 <= i < old_families.len() implies old_families[i].0@
                        != name@ by {
                        assert(old_known.contains_key(old_families[i].0@));
                    }
                    assert forall|i: int| 0 <= i < self.families@.len() implies #[trigger] self.known@.contains_key(
                        self.families@[i].0@,
                    ) && self.known@[self.families@[i].0@] == self.families@[i].1 by {
                        if i < old_families.len() {
                            assert(old_known.contains_key(old_families[i].0@));
                        }
                    }
                }
            },
        }
        Ok(id as i32)
    }

    /// The id recorded for the family called `name`.
    pub fn family(&self, name: &str) -> (r: Option<u16>)
        requires
            self.wf(),
        ensures
            self@.contains_key(name@) ==> r == Some(self@[name@]),
            !self@.contains_key(name@) ==> r is None,
    {
        let key = name.to_owned();
        match self.position(&key) {
            Some(k) => Some(self.families[k].1),
            None => None,
        }
    }
}

} // verus!
