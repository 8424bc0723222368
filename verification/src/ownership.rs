//! Reference-counted ownership of R objects.
//!
//! A single preserved R list (the preservation vector) holds every object
//! that Rust code keeps alive. Each object, known by its address, has a
//! count of the protections taken on it and a slot in the vector; the slot
//! holds the object while the count is positive and R's `NULL` once it
//! drops to zero. When the vector is full, the live objects are moved to
//! the front of a larger one.
//!
//! This module decides; the caller mirrors each decision on the R side:
//! the returned slot numbers say which element of the vector to set.
use vstd::prelude::*;
use std::collections::HashMap;

verus! {

broadcast use vstd::std_specs::hash::group_hash_axioms;

/// Length of the first preservation vector.
pub const INITIAL_PRESERVATION_SIZE: usize = 100000;

/// Slots added, beyond twice those in use, when the vector is rebuilt.
pub const EXTRA_PRESERVATION_SIZE: usize = 100000;

/// The bookkeeping of one object: how often it is protected, and its slot.
#[derive(Debug, Clone, Copy, PartialEq, Eq, Structural)]
pub struct Object {
    pub refcount: usize,
    pub index: usize,
}

/// What a protection did to the preservation vector.
#[derive(Debug, Clone, Copy, PartialEq, Eq, Structural)]
pub struct Protected {
    /// Whether the vector was rebuilt first (its live slots moved to the
    /// front of a new, longer vector).
    pub collected: bool,
    /// The slot that now holds the object.
    pub index: usize,
}

/// The ownership table: the contents of the preservation vector, the number
/// of slots handed out so far, and the bookkeeping of each known object.
#[derive(Debug)]
pub struct Ownership {
    slots: Vec<Option<usize>>,
    cur_index: usize,
    objects: HashMap<usize, Object>,
}

/// After `after` protected `addr` once more than `before` did, and every other
/// count stayed as it was.
pub open spec fn protects(before: &Ownership, after: &Ownership, addr: usize) -> bool {
    forall|a: usize|
        #[trigger] after.count(a) == if a == addr {
            before.count(a) + 1
        } else {
            before.count(a)
        }
}

/// `after` holds one protection of `addr` fewer than `before`, and every
/// other count stayed as it was.
pub open spec fn unprotects(before: &Ownership, after: &Ownership, addr: usize) -> bool {
    forall|a: usize|
        #[trigger] after.count(a) == if a == addr {
            (before.count(a) - 1) as nat
        } else {
            before.count(a)
        }
}

/// The objects held in `slots`, in slot order.
pub open spec fn filled(slots: Seq<Option<usize>>) -> Seq<usize>
    decreases slots.len(),
{
    if slots.len() == 0 {
        Seq::empty()
    } else {
        let rest = filled(slots.drop_last());
        match slots.last() {
            Some(a) => rest.push(a),
            None => rest,
        }
    }
}

/// No more objects are held than there are slots.
pub proof fn lemma_filled_len(slots: Seq<Option<usize>>)
    ensures
        filled(slots).len() <= slots.len(),
    decreases slots.len(),
{
    if slots.len() > 0 {
        lemma_filled_len(slots.drop_last());
    }
}

/// The rebuilt preservation vector: `cur * 2 + EXTRA_PRESERVATION_SIZE`
/// slots, starting with the objects held in the first `cur` slots of
/// `slots`, in their order, and empty after them.
pub open spec fn rebuilt(slots: Seq<Option<usize>>, cur: nat) -> Seq<Option<usize>> {
    let live = filled(slots.take(cur as int));
    Seq::new(
        (cur * 2 + EXTRA_PRESERVATION_SIZE) as nat,
        |k: int|
            if k < live.len() {
                Some(live[k])
            } else {
                None
            },
    )
}

impl Ownership {
    /// The contents of the preservation vector (`None` is R's `NULL`).
    pub closed spec fn slots(&self) -> Seq<Option<usize>> {
        self.slots@
    }

    /// The number of slots handed out since the vector was last rebuilt.
    pub closed spec fn cur(&self) -> nat {
        self.cur_index as nat
    }

    /// Whether the table knows `addr` (a count of zero is kept until the
    /// next rebuild).
    pub closed spec fn tracks(&self, addr: usize) -> bool {
        self.objects@.contains_key(addr)
    }

    /// The slot assigned to `addr` (meaningful where the table tracks it).
    pub closed spec fn slot_of(&self, addr: usize) -> nat {
        self.objects@[addr].index as nat
    }

    /// How many protections are held on `addr`.
    pub closed spec fn count(&self, addr: usize) -> nat {
        if self.objects@.contains_key(addr) {
            self.objects@[addr].refcount as nat
        } else {
            0
        }
    }

    /// The table agrees with the vector: every known object has its own
    /// slot among those handed out, which holds it exactly while its count
    /// is positive, and every filled slot belongs to such an object.
    pub closed spec fn wf(&self) -> bool {
        &&& self.cur_index <= self.slots@.len()
        &&& forall|a: usize| #[trigger]
            self.objects@.contains_key(a) ==> {
                let o = self.objects@[a];
                &&& o.index < self.cur_index
                &&& (o.refcount != 0 ==> self.slots@[o.index as int] == Some(a))
                &&& (o.refcount == 0 ==> self.slots@[o.index as int] is None)
            }
        &&& forall|i: int|
            0 <= i < self.slots@.len() && (#[trigger] self.slots@[i]) is Some ==> {
                let a = self.slots@[i]->0;
                &&& self.objects@.contains_key(a)
                &&& self.objects@[a].refcount != 0
                &&& self.objects@[a].index == i
            }
        &&& forall|i: int| self.cur_index <= i < self.slots@.len() ==> (#[trigger] self.slots@[i]) is None
        &&& forall|a: usize, b: usize|
            #![trigger self.objects@[a], self.objects@[b]]
            self.objects@.contains_key(a) && self.objects@.contains_key(b) && a != b
                ==> self.objects@[a].index != self.objects@[b].index
    }

    /// An empty table with a vector of `INITIAL_PRESERVATION_SIZE` slots.
    pub fn new() -> (r: Self)
        ensures
            r.wf(),
            r.slots().len() == INITIAL_PRESERVATION_SIZE,
            r.cur() == 0,
            forall|a: usize| #[trigger] r.count(a) == 0 && !r.tracks(a),
    {
        let slots = empty_slots(INITIAL_PRESERVATION_SIZE);
        Ownership { slots, cur_index: 0, objects: HashMap::with_capacity(INITIAL_PRESERVATION_SIZE) }
    }

    /// Rebuild the vector: a new one of twice the slots in use plus
    /// `EXTRA_PRESERVATION_SIZE`, holding the objects whose count is
    /// positive at its front, each in a slot of its own. Objects whose count
    /// dropped to zero are forgotten; every count stays as it was.
    pub fn garbage_collect(&mut self)
        requires
            old(self).wf(),
            old(self).cur() * 2 + EXTRA_PRESERVATION_SIZE <= usize::MAX,
        ensures
            final(self).wf(),
            final(self).slots() == rebuilt(old(self).slots(), old(self).cur()),
            final(self).cur() == filled(old(self).slots().take(old(self).cur() as int)).len(),
            final(self).cur() <= old(self).cur(),
            forall|a: usize| #[trigger] final(self).count(a) == old(self).count(a),
            forall|a: usize| #[trigger] final(self).tracks(a) <==> old(self).count(a) > 0,
    {
        let new_size: usize = self.cur_index * 2 + EXTRA_PRESERVATION_SIZE;
        let mut new_slots = empty_slots(new_size);
        let mut new_objects: HashMap<usize, Object> = HashMap::with_capacity(new_size);
        let ghost old_objects = self.objects@;
        let ghost old_slots = self.slots@;
        let mut j: usize = 0;
        let mut i: usize = 0;
        while i < self.cur_index
            invariant
                self.wf(),
                self.objects@ == old_objects,
                self.slots@ == old_slots,
                j <= i <= self.cur_index,
                new_size == self.cur_index * 2 + EXTRA_PRESERVATION_SIZE,
                new_slots@.len() == new_size,
                forall|a: usize| #[trigger]
                    new_objects@.contains_key(a) ==> {
                        let o = new_objects@[a];
                        &&& old_objects.contains_key(a)
                        &&& old_objects[a].refcount != 0
                        &&& old_objects[a].index < i
                        &&& o.refcount == old_objects[a].refcount
                        &&& o.index < j
                        &&& new_slots@[o.index as int] == Some(a)
                    },
                forall|a: usize| #[trigger]
                    old_objects.contains_key(a) && old_objects[a].refcount != 0
                        && old_objects[a].index < i ==> new_objects@.contains_key(a),
                forall|k: int|
                    0 <= k < new_slots@.len() && (#[trigger] new_slots@[k]) is Some ==> {
                        let a = new_slots@[k]->0;
                        &&& new_objects@.contains_key(a)
                        &&& new_objects@[a].index == k
                    },
                forall|k: int| j <= k < new_slots@.len() ==> (#[trigger] new_slots@[k]) is None,
                j == filled(old_slots.take(i as int)).len(),
                forall|k: int|
                    0 <= k < j ==> #[trigger] new_slots@[k] == Some(
                        filled(old_slots.take(i as int))[k],
                    ),
            decreases self.cur_index - i,
        {
            proof {
                assert(old_slots.take(i + 1).drop_last() =~= old_slots.take(i as int));
                assert(old_slots.take(i + 1).last() == old_slots[i as int]);
            }
            match self.slots[i] {
                Some(a) => {
                    let o: Object = *self.objects.get(&a).unwrap();
                    assert(!new_objects@.contains_key(a));
                    new_slots.set(j, Some(a));
                    new_objects.insert(a, Object { refcount: o.refcount, index: j });
                    j = j + 1;
                },
                None => {},
            }
            i = i + 1;
        }
        proof {
            assert(new_slots@ =~= rebuilt(old_slots, i as nat));
            lemma_filled_len(old_slots.take(i as int));
        }
        self.slots = new_slots;
        self.cur_index = j;
        self.objects = new_objects;
        proof {
            assert forall|a: usize, b: usize|
                #![trigger self.objects@[a], self.objects@[b]]
                self.objects@.contains_key(a) && self.objects@.contains_key(b) && a != b
                    implies self.objects@[a].index != self.objects@[b].index by {
                assert(self.slots@[self.objects@[a].index as int] == Some(a));
                assert(self.slots@[self.objects@[b].index as int] == Some(b));
            }
            assert forall|a: usize| #[trigger] self.count(a) == old(self).count(a) by {
                if old_objects.contains_key(a) && old_objects[a].refcount != 0 {
                    assert(new_objects@.contains_key(a));
                }
            }
        }
    }

    /// Take one more protection on `addr`. A first protection gives it the
    /// next free slot; one on an object whose count had dropped to zero
    /// fills its old slot again. When no slot is free, the vector is
    /// rebuilt first.
    pub fn protect(&mut self, addr: usize) -> (r: Protected)
        requires
            old(self).wf(),
            old(self).count(addr) < usize::MAX,
            old(self).slots().len() * 2 + EXTRA_PRESERVATION_SIZE <= usize::MAX,
        ensures
            final(self).wf(),
            protects(&*old(self), &*final(self), addr),
            r.collected == (old(self).cur() == old(self).slots().len()),
            r.index < final(self).slots().len(),
            final(self).slots()[r.index as int] == Some(addr),
            final(self).slots() == (if r.collected {
                rebuilt(old(self).slots(), old(self).cur())
            } else {
                old(self).slots()
            }).update(r.index as int, Some(addr)),
            final(self).tracks(addr),
            forall|a: usize|
                a != addr ==> #[trigger] final(self).tracks(a) == if r.collected {
                    old(self).count(a) > 0
                } else {
                    old(self).tracks(a)
                },
            !r.collected && old(self).tracks(addr) ==> r.index == old(self).slot_of(addr)
                && final(self).cur() == old(self).cur(),
            !r.collected && !old(self).tracks(addr) ==> r.index == old(self).cur()
                && final(self).cur() == old(self).cur() + 1,
            r.collected && old(self).count(addr) > 0 ==> final(self).cur() == filled(
                old(self).slots().take(old(self).cur() as int),
            ).len(),
            r.collected && old(self).count(addr) == 0 ==> r.index == filled(
                old(self).slots().take(old(self).cur() as int),
            ).len() && final(self).cur() == r.index + 1,
    {
        let collected = self.cur_index == self.slots.len();
        if collected {
            self.garbage_collect();
        }
        let ghost mid = self.objects@;
        let ghost mid_slots = self.slots@;
        let ghost mid_own: Ownership = *self;
        assert(forall|a: usize| #[trigger] mid_own.count(a) == old(self).count(a));
        assert(mid_own.count(addr) == old(self).count(addr));
        assert(forall|a: usize|
            #[trigger] mid_own.tracks(a) == if collected {
                old(self).count(a) > 0
            } else {
                old(self).tracks(a)
            });
        match self.objects.get(&addr) {
            Some(found) => {
                let o: Object = *found;
                assert(o.refcount == old(self).count(addr));
                self.slots.set(o.index, Some(addr));
                self.objects.insert(addr, Object { refcount: o.refcount + 1, index: o.index });
                proof {
                    assert forall|i: int|
                        0 <= i < self.slots@.len() && (#[trigger] self.slots@[i]) is Some implies {
                            let a = self.slots@[i]->0;
                            &&& self.objects@.contains_key(a)
                            &&& self.objects@[a].refcount != 0
                            &&& self.objects@[a].index == i
                        } by {
                        if i != o.index {
                            assert(mid_slots[i] == self.slots@[i]);
                        }
                    }
                    assert forall|a: usize| a != addr implies #[trigger] self.count(a) == old(self).count(a) by {
                        assert(self.objects@.contains_key(a) == mid.contains_key(a));
                        assert(mid_own.count(a) == old(self).count(a));
                    }
                    assert forall|a: usize| a != addr implies #[trigger] self.tracks(a) == mid_own.tracks(a) by {
                        assert(self.objects@.contains_key(a) == mid.contains_key(a));
                    }
                }
                Protected { collected, index: o.index }
            },
            None => {
                let index: usize = self.cur_index;
                self.slots.set(index, Some(addr));
                self.cur_index = self.cur_index + 1;
                self.objects.insert(addr, Object { refcount: 1, index });
                proof {
                    assert forall|i: int|
                        0 <= i < self.slots@.len() && (#[trigger] self.slots@[i]) is Some implies {
                            let a = self.slots@[i]->0;
                            &&& self.objects@.contains_key(a)
                            &&& self.objects@[a].refcount != 0
                            &&& self.objects@[a].index == i
                        } by {
                        if i != index {
                            assert(mid_slots[i] == self.slots@[i]);
                        }
                    }
                    assert forall|a: usize| a != addr implies #[trigger] self.count(a) == old(self).count(a) by {
                        assert(self.objects@.contains_key(a) == mid.contains_key(a));
                        assert(mid_own.count(a) == old(self).count(a));
                    }
                    assert forall|a: usize| a != addr implies #[trigger] self.tracks(a) == mid_own.tracks(a) by {
                        assert(self.objects@.contains_key(a) == mid.contains_key(a));
                    }
                }
                Protected { collected, index }
            },
        }
    }

    /// Give up one protection on `addr`. When its count drops to zero, its
    /// slot is emptied (the slot is returned) but the table keeps knowing it
    /// until the next rebuild.
    pub fn unprotect(&mut self, addr: usize) -> (cleared: Option<usize>)
        requires
            old(self).wf(),
            old(self).count(addr) > 0,
        ensures
            final(self).wf(),
            unprotects(&*old(self), &*final(self), addr),
            final(self).cur() == old(self).cur(),
            forall|a: usize| #[trigger] final(self).tracks(a) == old(self).tracks(a),
            match cleared {
                Some(i) => {
                    &&& final(self).count(addr) == 0
                    &&& i == old(self).slot_of(addr)
                    &&& i < old(self).slots().len()
                    &&& old(self).slots()[i as int] == Some(addr)
                    &&& final(self).slots() == old(self).slots().update(i as int, None)
                },
                None => final(self).count(addr) > 0 && final(self).slots() == old(self).slots(),
            },
    {
        let o: Object = *self.objects.get(&addr).unwrap();
        let refcount: usize = o.refcount - 1;
        self.objects.insert(addr, Object { refcount, index: o.index });
        if refcount == 0 {
            let ghost before = self.slots@;
            self.slots.set(o.index, None);
            proof {
                assert forall|a: usize| #[trigger] self.objects@.contains_key(a) implies {
                    let p = self.objects@[a];
                    &&& p.index < self.cur_index
                    &&& (p.refcount != 0 ==> self.slots@[p.index as int] == Some(a))
                    &&& (p.refcount == 0 ==> self.slots@[p.index as int] is None)
                } by {
                    if a != addr {
                        assert(self.objects@[a].index != o.index);
                    }
                }
                assert forall|i: int|
                    0 <= i < self.slots@.len() && (#[trigger] self.slots@[i]) is Some implies {
                        let a = self.slots@[i]->0;
                        &&& self.objects@.contains_key(a)
                        &&& self.objects@[a].refcount != 0
                        &&& self.objects@[a].index == i
                    } by {
                    assert(before[i] == self.slots@[i]);
                }
            }
            Some(o.index)
        } else {
            None
        }
    }

    /// Whether the table agrees with the vector (see `wf`), checked slot by
    /// slot and object by object.
    pub fn check_objects(&self) -> (ok: bool)
        ensures
            ok == self.wf(),
    {
        let n: usize = self.slots.len();
        let cur: usize = self.cur_index;
        if cur > n {
            return false;
        }
        let mut i: usize = 0;
        while i < n
            invariant
                n == self.slots@.len(),
                cur == self.cur_index,
                cur <= n,
                i <= n,
                forall|k: int|
                    0 <= k < i && (#[trigger] self.slots@[k]) is Some ==> {
                        let a = self.slots@[k]->0;
                        &&& self.objects@.contains_key(a)
                        &&& self.objects@[a].refcount != 0
                        &&& self.objects@[a].index == k
                    },
                forall|k: int| cur <= k < i ==> (#[trigger] self.slots@[k]) is None,
            decreases n - i,
        {
            match self.slots[i] {
                Some(a) => {
                    if i >= cur {
                        return false;
                    }
                    match self.objects.get(&a) {
                        Some(o) => {
                            if o.refcount == 0 || o.index != i {
                                return false;
                            }
                        },
                        None => {
                            return false;
                        },
                    }
                },
                None => {},
            }
            i = i + 1;
        }
        let mut seen: Vec<bool> = Vec::with_capacity(cur);
        let mut k: usize = 0;
        while k < cur
            invariant
                k <= cur,
                seen@.len() == k,
                forall|j: int| 0 <= j < k ==> !(#[trigger] seen@[j]),
            decreases cur - k,
        {
            seen.push(false);
            k = k + 1;
        }
        let ghost m = self.objects@;
        let ghost all = vstd::std_specs::iter::IteratorSpec::remaining(&vstd::std_specs::hash::spec_hash_map_iter(&self.objects));
        assert(all.len() == m.dom().len());
        for (a, o) in it: self.objects.iter()
            invariant
                m == self.objects@,
                n == self.slots@.len(),
                cur == self.cur_index,
                cur <= n,
                it.seq() == all,
                all.no_duplicates(),
                all.len() == m.dom().len(),
                forall|j: int|
                    0 <= j < all.len() ==> m.contains_key(*(#[trigger] all[j]).0) && m[*all[j].0]
                        == *all[j].1,
                forall|b: usize| #[trigger] m.contains_key(b) ==> all.contains((&b, &m[b])),
                seen@.len() == cur,
                forall|j: int|
                    0 <= j < it.index() ==> {
                        let b = *(#[trigger] all[j]).0;
                        let p = m[b];
                        &&& p.index < cur
                        &&& (p.refcount != 0 ==> self.slots@[p.index as int] == Some(b))
                        &&& (p.refcount == 0 ==> self.slots@[p.index as int] is None)
                        &&& seen@[p.index as int]
                    },
                forall|x: int|
                    0 <= x < cur && #[trigger] seen@[x] ==> exists|j: int|
                        0 <= j < it.index() && m[*all[j].0].index == x,
                forall|j1: int, j2: int|
                    #![trigger all[j1], all[j2]]
                    0 <= j1 < j2 < it.index() ==> m[*all[j1].0].index != m[*all[j2].0].index,
        {
            let idx: usize = o.index;
            if idx >= cur {
                return false;
            }
            if o.refcount != 0 {
                match self.slots[idx] {
                    Some(b) => {
                        if b != *a {
                            return false;
                        }
                    },
                    None => {
                        return false;
                    },
                }
            } else {
                if self.slots[idx].is_some() {
                    return false;
                }
            }
            if seen[idx] {
                proof {
                    let j = choose|j: int| 0 <= j < it.index() && m[*all[j].0].index == idx;
                    let b = *all[j].0;
                    assert(all[j] != all[it.index()]);
                    assert(b != *a);
                }
                return false;
            }
            seen.set(idx, true);
        }
        assert forall|b: usize| #[trigger] m.contains_key(b) implies {
            let p = m[b];
            &&& p.index < self.cur_index
            &&& (p.refcount != 0 ==> self.slots@[p.index as int] == Some(b))
            &&& (p.refcount == 0 ==> self.slots@[p.index as int] is None)
        } by {
            let j = choose|j: int| 0 <= j < all.len() && all[j] == (&b, &m[b]);
            assert(*all[j].0 == b);
        }
        assert forall|b: usize, c: usize|
            #![trigger m[b], m[c]]
            m.contains_key(b) && m.contains_key(c) && b != c implies m[b].index != m[c].index by {
            let jb = choose|j: int| 0 <= j < all.len() && all[j] == (&b, &m[b]);
            let jc = choose|j: int| 0 <= j < all.len() && all[j] == (&c, &m[c]);
            assert(*all[jb].0 == b);
            assert(*all[jc].0 == c);
            if jb < jc {
            } else {
            }
        }
        true
    }

    /// The number of protections held on `addr`.
    pub fn ref_count(&self, addr: usize) -> (r: usize)
        ensures
            r == self.count(addr),
    {
        match self.objects.get(&addr) {
            Some(o) => o.refcount,
            None => 0,
        }
    }

    /// Whether `addr` was ever protected since the last rebuild, or is still
    /// protected.
    pub fn is_tracked(&self, addr: usize) -> (r: bool)
        ensures
            r == self.tracks(addr),
    {
        self.objects.contains_key(&addr)
    }

    /// The length of the preservation vector.
    pub fn max_index(&self) -> (r: usize)
        ensures
            r == self.slots().len(),
    {
        self.slots.len()
    }

    /// What slot `i` of the preservation vector holds.
    pub fn slot(&self, i: usize) -> (r: Option<usize>)
        requires
            i < self.slots().len(),
        ensures
            r == self.slots()[i as int],
    {
        self.slots[i]
    }
}

/// A vector of `n` empty slots.
fn empty_slots(n: usize) -> (v: Vec<Option<usize>>)
    ensures
        v@.len() == n,
        forall|i: int| 0 <= i < n ==> (#[trigger] v@[i]) is None,
{
    let mut v: Vec<Option<usize>> = Vec::with_capacity(n);
    let mut k: usize = 0;
    while k < n
        invariant
            k <= n,
            v@.len() == k,
            forall|i: int| 0 <= i < k ==> (#[trigger] v@[i]) is None,
        decreases n - k,
    {
        v.push(None);
        k = k + 1;
    }
    v
}


/// Giving up a protection undoes taking it: after `protect` and then
/// `unprotect` of the same object, every count is what it was before.
pub proof fn lemma_unprotect_undoes_protect(
    before: &Ownership,
    mid: &Ownership,
    after: &Ownership,
    addr: usize,
)
    requires
        protects(before, mid, addr),
        unprotects(mid, after, addr),
    ensures
        forall|a: usize| #[trigger] after.count(a) == before.count(a),
{
    assert forall|a: usize| #[trigger] after.count(a) == before.count(a) by {
        assert(mid.count(a) == if a == addr { before.count(a) + 1 } else { before.count(a) });
    }
}

} // verus!
