//! `PreVec`: an index-stable slot vector with an optional offset.
//!
//! Vacant slots form a free list threaded through the slots themselves, so
//! `insert` and `remove` take constant time. The index handed out by `insert`
//! is the slot's position plus the offset: two slot vectors whose ranges
//! `[offset, offset + capacity)` do not meet, and which may not grow, never
//! hand out the same index.
use vstd::prelude::*;
use vstd::set_lib::{lemma_int_range, lemma_len_subset, set_int_range};

use crate::errors::Error;

verus! {

/// One slot: a value, or the position of the next vacant slot.
enum Entry<T> {
    Vacant(usize),
    Occupied(T),
}

impl<T> Entry<T> {
    spec fn value(self) -> Option<T> {
        match self {
            Entry::Occupied(v) => Some(v),
            Entry::Vacant(_) => None,
        }
    }
}

/// A collection that hands out stable indices, reusing vacated ones first.
///
/// By default the collection grows (doubling its capacity) when every slot is
/// taken; after `prevent_growth` such an insert fails with `NoCapacity`.
pub struct PreVec<T> {
    inner: Vec<Entry<T>>,
    capacity: usize,
    next: usize,
    offset: usize,
    length: usize,
    can_grow: bool,
    vacant: Ghost<Seq<int>>,
}

impl<T> PreVec<T> {
    /// The slots laid out so far, by position.
    pub closed spec fn slots(&self) -> Seq<Option<T>> {
        self.inner@.map_values(|e: Entry<T>| e.value())
    }

    /// The vacant positions, in the order in which `insert` reuses them.
    pub closed spec fn vacancies(&self) -> Seq<int> {
        self.vacant@
    }

    pub closed spec fn spec_offset(&self) -> nat {
        self.offset as nat
    }

    pub closed spec fn spec_capacity(&self) -> nat {
        self.capacity as nat
    }

    pub closed spec fn spec_can_grow(&self) -> bool {
        self.can_grow
    }

    /// The value stored under `index`, if any.
    pub open spec fn at(&self, index: int) -> Option<T> {
        let p = index - self.spec_offset();
        if 0 <= p < self.slots().len() {
            self.slots()[p]
        } else {
            None
        }
    }

    /// The position that the next `insert` fills.
    pub open spec fn next_position(&self) -> int {
        if self.vacancies().len() > 0 {
            self.vacancies()[0]
        } else {
            self.slots().len() as int
        }
    }

    /// The index that the next successful `insert` returns.
    pub open spec fn next_index(&self) -> int {
        self.spec_offset() + self.next_position()
    }

    /// The capacity after the growth that an insert into a full vector needs.
    pub open spec fn grown_capacity(&self) -> int {
        if self.slots().len() < self.spec_capacity() {
            self.spec_capacity() as int
        } else if self.spec_capacity() == 0 {
            1
        } else {
            2 * self.spec_capacity() as int
        }
    }

    /// Whether a slot for the next insert is vacant or can be laid out.
    pub open spec fn has_room(&self) -> bool {
        ||| self.vacancies().len() > 0
        ||| self.slots().len() < self.spec_capacity()
        ||| (self.spec_can_grow() && self.grown_capacity() <= usize::MAX)
    }

    /// Whether the next insert succeeds.
    pub open spec fn can_insert(&self) -> bool {
        self.has_room() && self.next_index() <= usize::MAX
    }

    /// The vacancies after the slots `from..to` were laid out.
    pub open spec fn fresh_run(from: int, to: int) -> Seq<int> {
        Seq::new((to - from) as nat, |k: int| from + k)
    }

    spec fn link_of(&self, k: int) -> int {
        if k + 1 < self.vacant@.len() {
            self.vacant@[k + 1]
        } else {
            self.inner@.len() as int
        }
    }

    /// The free list threads exactly the vacant slots, in order, and ends
    /// at the first position not laid out yet.
    pub closed spec fn wf(&self) -> bool {
        let v = self.vacant@;
        let n = self.inner@.len();
        &&& n <= self.capacity
        &&& v.no_duplicates()
        &&& forall|k: int|
            0 <= k < v.len() ==> {
                &&& 0 <= #[trigger] v[k] < n
                &&& self.inner@[v[k]] == Entry::<T>::Vacant(self.link_of(k) as usize)
            }
        &&& forall|i: int| 0 <= i < n && (#[trigger] self.inner@[i]) is Vacant ==> v.contains(i)
        &&& self.next as int == self.next_position()
        &&& self.length as int == self.inner@.len() - v.len()
    }

    proof fn lemma_vacant_is_none(&self, k: int)
        requires
            self.wf(),
            0 <= k < self.vacancies().len(),
        ensures
            0 <= self.vacancies()[k] < self.slots().len(),
            self.slots()[self.vacancies()[k]] is None,
    {
        let p = self.vacant@[k];
        assert(self.inner@[p] == Entry::<T>::Vacant(self.link_of(k) as usize));
    }

    proof fn lemma_none_is_vacant(&self, p: int)
        requires
            self.wf(),
            0 <= p < self.slots().len(),
            self.slots()[p] is None,
        ensures
            self.vacancies().contains(p),
    {
        assert(self.inner@[p] is Vacant);
    }

    /// The number of stored values.
    pub open spec fn spec_len(&self) -> int {
        self.slots().len() - self.vacancies().len()
    }

    /// The capacity once the next insert has succeeded.
    pub open spec fn capacity_after_insert(&self) -> nat {
        if self.vacancies().len() > 0 {
            self.spec_capacity()
        } else {
            self.grown_capacity() as nat
        }
    }

    /// The vacancies once the next insert has succeeded.
    pub open spec fn vacancies_after_insert(&self) -> Seq<int> {
        if self.vacancies().len() > 0 {
            self.vacancies().drop_first()
        } else {
            Self::fresh_run(self.next_position() + 1, self.grown_capacity())
        }
    }

    /// What `insert(v)` does: `after` and `r` are its outcome on `before`.
    pub open spec fn inserts(before: Self, v: T, after: Self, r: Result<usize, Error>) -> bool {
        &&& r is Ok <==> before.can_insert()
        &&& match r {
            Ok(i) => {
                &&& i == before.next_index()
                &&& before.at(i as int) is None
                &&& after.at(i as int) == Some(v)
                &&& forall|j: int| j != i ==> #[trigger] after.at(j) == before.at(j)
                &&& after.vacancies() == before.vacancies_after_insert()
                &&& after.spec_capacity() == before.capacity_after_insert()
                &&& after.spec_len() == before.spec_len() + 1
                &&& after.spec_offset() == before.spec_offset()
                &&& after.spec_can_grow() == before.spec_can_grow()
            },
            Err(e) => e == Error::NoCapacity && after == before,
        }
    }

    /// What `remove(index)` does: `after` and `r` are its outcome on `before`.
    pub open spec fn removes(before: Self, index: usize, after: Self, r: Option<T>) -> bool {
        &&& r == before.at(index as int)
        &&& after.at(index as int) is None
        &&& forall|j: int| j != index ==> #[trigger] after.at(j) == before.at(j)
        &&& r is Some ==> {
            &&& after.vacancies() == seq![index - before.spec_offset()].add(
                before.vacancies(),
            )
            &&& after.spec_len() == before.spec_len() - 1
            &&& after.slots().len() == before.slots().len()
            &&& after.spec_offset() == before.spec_offset()
            &&& after.spec_capacity() == before.spec_capacity()
            &&& after.spec_can_grow() == before.spec_can_grow()
        }
        &&& r is None ==> after == before
    }

    /// The free list names each empty slot once, and nothing else; no slot
    /// lies at or beyond the capacity.
    pub proof fn lemma_vacancies(&self)
        requires
            self.wf(),
        ensures
            self.vacancies().no_duplicates(),
            self.slots().len() <= self.spec_capacity(),
            forall|k: int|
                0 <= k < self.vacancies().len() ==> 0 <= #[trigger] self.vacancies()[k]
                    < self.slots().len(),
            forall|p: int|
                0 <= p < self.slots().len() ==> ((#[trigger] self.slots()[p]) is None
                    <==> self.vacancies().contains(p)),
            0 <= self.spec_len() <= self.slots().len(),
    {
        assert forall|p: int| 0 <= p < self.slots().len() implies ((#[trigger] self.slots()[p]) is None
            <==> self.vacancies().contains(p)) by {
            if self.slots()[p] is None {
                self.lemma_none_is_vacant(p);
            }
            if self.vacancies().contains(p) {
                let k = choose|k: int| 0 <= k < self.vacancies().len() && self.vacancies()[k] == p;
                self.lemma_vacant_is_none(k);
            }
        }
        self.lemma_vacancy_count();
    }

    proof fn lemma_vacancy_count(&self)
        requires
            self.wf(),
        ensures
            self.vacant@.len() <= self.inner@.len(),
    {
        let v = self.vacant@;
        let n = self.inner@.len() as int;
        v.unique_seq_to_set();
        lemma_int_range(0, n);
        assert(v.to_set().subset_of(set_int_range(0, n)));
        lemma_len_subset(v.to_set(), set_int_range(0, n));
    }

    proof fn lemma_vacancy_count_without(&self, p: int)
        requires
            self.wf(),
            0 <= p < self.inner@.len(),
            !self.vacant@.contains(p),
        ensures
            self.vacant@.len() < self.inner@.len(),
    {
        let v = self.vacant@;
        let n = self.inner@.len() as int;
        v.unique_seq_to_set();
        lemma_int_range(0, n);
        assert(v.to_set().subset_of(set_int_range(0, n).remove(p)));
        lemma_len_subset(v.to_set(), set_int_range(0, n).remove(p));
    }

    /// Lays out fresh vacant slots when no vacant slot is left for `index`,
    /// the position of the next insert.
    fn grow_if_required(&mut self, index: usize) -> (r: Result<(), Error>)
        requires
            old(self).wf(),
            index == old(self).next_position(),
        ensures
            r is Ok <==> old(self).has_room(),
            r is Ok ==> {
                &&& final(self).wf()
                &&& final(self).vacancies().len() > 0
                &&& final(self).next_position() == index
                &&& final(self).spec_offset() == old(self).spec_offset()
                &&& final(self).spec_can_grow() == old(self).spec_can_grow()
                &&& if old(self).vacancies().len() > 0 {
                    *final(self) == *old(self)
                } else {
                    &&& final(self).slots() == old(self).slots() + Seq::new(
                        (old(self).grown_capacity() - old(self).slots().len()) as nat,
                        |k: int| None::<T>,
                    )
                    &&& final(self).vacancies() == Self::fresh_run(
                        index as int,
                        old(self).grown_capacity(),
                    )
                    &&& final(self).spec_capacity() == old(self).grown_capacity()
                }
            },
            r is Err ==> r == Err::<(), Error>(Error::NoCapacity) && *final(self) == *old(self),
    {
        let len = self.inner.len();
        if index < len {
            return Ok(());
        }
        let new_cap: usize;
        if len < self.capacity {
            new_cap = self.capacity;
        } else if !self.can_grow {
            return Err(Error::NoCapacity);
        } else if self.capacity == 0 {
            new_cap = 1;
        } else if self.capacity > usize::MAX / 2 {
            return Err(Error::NoCapacity);
        } else {
            new_cap = self.capacity * 2;
        }
        let ghost old_slots = self.slots();
        proof {
            if self.vacant@.len() > 0 {
                assert(0 <= self.vacant@[0] < len);
            }
            assert(self.vacant@ =~= Self::fresh_run(len as int, len as int));
            assert forall|i: int| 0 <= i < len implies !(#[trigger] self.inner@[i] is Vacant) by {
                if self.inner@[i] is Vacant {
                    assert(self.vacant@.contains(i));
                }
            }
        }
        self.capacity = new_cap;
        let mut i: usize = len;
        while i < new_cap
            invariant
                len <= i <= new_cap,
                len == index,
                self.inner@.len() == i,
                self.capacity == new_cap,
                self.next == index,
                self.length as int == len - 0,
                self.vacant@ == Self::fresh_run(len as int, i as int),
                forall|k: int| 0 <= k < len ==> !(#[trigger] self.inner@[k] is Vacant),
                forall|k: int| len <= k < i ==> #[trigger] self.inner@[k] == Entry::<T>::Vacant((k + 1) as usize),
                old_slots.len() == len,
                forall|k: int| 0 <= k < len ==> #[trigger] self.inner@[k].value() == old_slots[k],
                self.offset == old(self).offset,
                self.can_grow == old(self).can_grow,
            decreases new_cap - i,
        {
            self.inner.push(Entry::Vacant(i + 1));
            self.vacant = Ghost(self.vacant@.push(i as int));
            i = i + 1;
            proof {
                assert(self.vacant@ =~= Self::fresh_run(len as int, i as int));
            }
        }
        proof {
            let v = self.vacant@;
            assert(v.no_duplicates());
            assert forall|k: int| 0 <= k < v.len() implies {
                &&& 0 <= #[trigger] v[k] < self.inner@.len()
                &&& self.inner@[v[k]] == Entry::<T>::Vacant(self.link_of(k) as usize)
            } by {}
            assert forall|j: int|
                0 <= j < self.inner@.len() && (#[trigger] self.inner@[j]) is Vacant implies v.contains(
                j,
            ) by {
                assert(v[j - len] == j);
            }
            assert(self.slots() =~= old_slots + Seq::new(
                (new_cap - len) as nat,
                |k: int| None::<T>,
            ));
        }
        Ok(())
    }

    /// Creates an empty `PreVec` with room for `cap` values before it grows.
    pub fn with_capacity(cap: usize) -> (r: Self)
        ensures
            r.wf(),
            r.slots().len() == 0,
            r.vacancies().len() == 0,
            r.spec_capacity() == cap,
            r.spec_offset() == 0,
            r.spec_can_grow(),
    {
        let r = PreVec {
            inner: Vec::new(),
            capacity: cap,
            next: 0,
            offset: 0,
            length: 0,
            can_grow: true,
            vacant: Ghost(Seq::empty()),
        };
        proof {
            assert(r.slots() =~= Seq::<Option<T>>::empty());
        }
        r
    }

    /// Creates an empty `PreVec` whose indices start at `offset`.
    pub fn with_capacity_and_offset(cap: usize, offset: usize) -> (r: Self)
        ensures
            r.wf(),
            r.slots().len() == 0,
            r.vacancies().len() == 0,
            r.spec_capacity() == cap,
            r.spec_offset() == offset,
            r.spec_can_grow(),
    {
        let mut p = Self::with_capacity(cap);
        p.set_offset(offset);
        p
    }

    /// The number of slots before the next growth.
    pub fn capacity(&self) -> (r: usize)
        ensures
            r == self.spec_capacity(),
    {
        self.capacity
    }

    /// The index of the first slot.
    pub fn offset(&self) -> (r: usize)
        ensures
            r == self.spec_offset(),
    {
        self.offset
    }

    /// Makes an insert into a full `PreVec` fail instead of growing it.
    pub fn prevent_growth(&mut self)
        requires
            old(self).wf(),
        ensures
            final(self).wf(),
            !final(self).spec_can_grow(),
            final(self).slots() == old(self).slots(),
            final(self).vacancies() == old(self).vacancies(),
            final(self).spec_offset() == old(self).spec_offset(),
            final(self).spec_capacity() == old(self).spec_capacity(),
    {
        self.can_grow = false;
    }

    /// Lets an insert into a full `PreVec` grow it.
    pub fn enable_growth(&mut self)
        requires
            old(self).wf(),
        ensures
            final(self).wf(),
            final(self).spec_can_grow(),
            final(self).slots() == old(self).slots(),
            final(self).vacancies() == old(self).vacancies(),
            final(self).spec_offset() == old(self).spec_offset(),
            final(self).spec_capacity() == old(self).spec_capacity(),
    {
        self.can_grow = true;
    }

    /// Whether `index` lies in `[offset, offset + capacity)`.
    pub fn in_range(&self, index: usize) -> (r: bool)
        ensures
            r == (self.spec_offset() <= index < self.spec_offset() + self.spec_capacity()),
    {
        index >= self.offset && index - self.offset < self.capacity
    }

    /// Moves every index, stored and future, to start at `new_offset`.
    pub fn set_offset(&mut self, new_offset: usize)
        requires
            old(self).wf(),
        ensures
            final(self).wf(),
            final(self).spec_offset() == new_offset,
            final(self).slots() == old(self).slots(),
            final(self).vacancies() == old(self).vacancies(),
            final(self).spec_capacity() == old(self).spec_capacity(),
            final(self).spec_can_grow() == old(self).spec_can_grow(),
    {
        self.offset = new_offset;
    }

    /// The value stored under `index`, if any.
    pub fn get(&self, index: usize) -> (r: Option<&T>)
        requires
            self.wf(),
        ensures
            match r {
                Some(x) => self.at(index as int) == Some(*x),
                None => self.at(index as int) is None,
            },
    {
        if index < self.offset {
            return None;
        }
        let p = index - self.offset;
        if p >= self.inner.len() {
            return None;
        }
        match &self.inner[p] {
            Entry::Occupied(v) => Some(v),
            Entry::Vacant(_) => None,
        }
    }

    /// A mutable reference to the value stored under `index`, if any.
    pub fn get_mut(&mut self, index: usize) -> (r: Option<&mut T>)
        requires
            old(self).wf(),
        ensures
            final(self).vacancies() == old(self).vacancies(),
            final(self).spec_offset() == old(self).spec_offset(),
            final(self).spec_capacity() == old(self).spec_capacity(),
            final(self).spec_can_grow() == old(self).spec_can_grow(),
            match r {
                Some(x) => {
                    &&& old(self).at(index as int) == Some(*x)
                    &&& final(self).slots() == old(self).slots().update(
                        index - old(self).spec_offset(),
                        Some(*final(x)),
                    )
                },
                None => {
                    &&& old(self).at(index as int) is None
                    &&& final(self).slots() == old(self).slots()
                },
            },
            final(self).wf(),
    {
        if index < self.offset {
            return None;
        }
        let p = index - self.offset;
        if p >= self.inner.len() {
            return None;
        }
        if let Entry::Vacant(_) = &self.inner[p] {
            return None;
        }
        proof {
            assert forall|k: int| 0 <= k < self.vacant@.len() implies self.vacant@[k] != p by {
                self.lemma_vacant_is_none(k);
            }
        }
        let e = &mut self.inner[p];
        match e {
            Entry::Occupied(v) => Some(v),
            Entry::Vacant(_) => None,
        }
    }

    /// Stores `v` in the next vacant slot and returns that slot's index.
    ///
    /// A vacated slot is reused before any fresh one. With no vacant slot the
    /// vector lays out fresh slots up to its capacity, then doubles the
    /// capacity if it may grow; otherwise, or if the index would not fit in a
    /// `usize`, it fails with `NoCapacity` and changes nothing.
    pub fn insert(&mut self, v: T) -> (r: Result<usize, Error>)
        requires
            old(self).wf(),
        ensures
            final(self).wf(),
            Self::inserts(*old(self), v, *final(self), r),
    {
        let index = self.next;
        if index > usize::MAX - self.offset {
            return Err(Error::NoCapacity);
        }
        let grown = self.grow_if_required(index);
        if grown.is_err() {
            return Err(Error::NoCapacity);
        }
        let ghost mid = *self;
        proof {
            mid.lemma_vacant_is_none(0);
            mid.lemma_vacancies();
        }
        let mut entry = Entry::Occupied(v);
        std::mem::swap(&mut self.inner[index], &mut entry);
        match entry {
            Entry::Vacant(link) => {
                self.next = link;
            },
            Entry::Occupied(_) => {
                proof {
                    assert(false);
                }
            },
        }
        self.vacant = Ghost(self.vacant@.drop_first());
        self.length = self.length + 1;
        proof {
            let v0 = mid.vacant@;
            assert(self.slots() =~= mid.slots().update(index as int, Some(v)));
            assert forall|k: int| 0 <= k < self.vacant@.len() implies {
                &&& 0 <= #[trigger] self.vacant@[k] < self.inner@.len()
                &&& self.inner@[self.vacant@[k]] == Entry::<T>::Vacant(self.link_of(k) as usize)
            } by {
                assert(self.vacant@[k] == v0[k + 1]);
                assert(v0[k + 1] != v0[0]);
                assert(mid.link_of(k + 1) == self.link_of(k));
            }
            assert forall|j: int|
                0 <= j < self.inner@.len() && (#[trigger] self.inner@[j]) is Vacant implies self.vacant@.contains(
                j,
            ) by {
                assert(mid.inner@[j] is Vacant);
                assert(v0.contains(j));
                let k = choose|k: int| 0 <= k < v0.len() && v0[k] == j;
                assert(k != 0);
                assert(self.vacant@[k - 1] == j);
            }
            assert(self.vacant@.no_duplicates()) by {
                assert forall|a: int, b: int|
                    0 <= a < self.vacant@.len() && 0 <= b < self.vacant@.len() && a != b
                        implies self.vacant@[a] != self.vacant@[b] by {
                    assert(self.vacant@[a] == v0[a + 1]);
                    assert(self.vacant@[b] == v0[b + 1]);
                }
            }
            assert(mid.link_of(0) == self.next_position());
            assert(self.vacant@ =~= old(self).vacancies_after_insert());
        }
        Ok(index + self.offset)
    }

    /// Takes the value stored under `index` out, if any; its slot becomes the
    /// first to be reused.
    pub fn remove(&mut self, index: usize) -> (r: Option<T>)
        requires
            old(self).wf(),
        ensures
            final(self).wf(),
            Self::removes(*old(self), index, *final(self), r),
    {
        if index < self.offset {
            return None;
        }
        let p = index - self.offset;
        if p >= self.inner.len() {
            return None;
        }
        if let Entry::Vacant(_) = &self.inner[p] {
            return None;
        }
        let ghost mid = *self;
        proof {
            assert forall|k: int| 0 <= k < mid.vacant@.len() implies mid.vacant@[k] != p by {
                mid.lemma_vacant_is_none(k);
            }
            mid.lemma_vacancy_count_without(p as int);
        }
        let mut entry = Entry::Vacant(self.next);
        std::mem::swap(&mut self.inner[p], &mut entry);
        self.vacant = Ghost(seq![p as int].add(self.vacant@));
        self.next = p;
        self.length = self.length - 1;
        proof {
            let v0 = mid.vacant@;
            let v1 = self.vacant@;
            assert(self.slots() =~= mid.slots().update(p as int, None));
            assert forall|k: int| 0 <= k < v1.len() implies {
                &&& 0 <= #[trigger] v1[k] < self.inner@.len()
                &&& self.inner@[v1[k]] == Entry::<T>::Vacant(self.link_of(k) as usize)
            } by {
                if k > 0 {
                    assert(v1[k] == v0[k - 1]);
                    assert(mid.link_of(k - 1) == self.link_of(k));
                } else {
                    assert(self.link_of(0) == mid.next_position());
                }
            }
            assert forall|j: int|
                0 <= j < self.inner@.len() && (#[trigger] self.inner@[j]) is Vacant implies v1.contains(j) by {
                if j == p {
                    assert(v1[0] == j);
                } else {
                    assert(mid.inner@[j] is Vacant);
                    let k = choose|k: int| 0 <= k < v0.len() && v0[k] == j;
                    assert(v1[k + 1] == j);
                }
            }
            assert(v1.no_duplicates()) by {
                assert forall|a: int, b: int|
                    0 <= a < v1.len() && 0 <= b < v1.len() && a != b implies v1[a] != v1[b] by {
                    if a > 0 {
                        assert(v1[a] == v0[a - 1]);
                    }
                    if b > 0 {
                        assert(v1[b] == v0[b - 1]);
                    }
                }
            }
        }
        match entry {
            Entry::Occupied(v) => Some(v),
            Entry::Vacant(_) => {
                proof {
                    assert(false);
                }
                None
            },
        }
    }

    /// The number of stored values.
    pub fn len(&self) -> (r: usize)
        requires
            self.wf(),
        ensures
            r == self.spec_len(),
    {
        self.length
    }

    /// Whether no value is stored.
    pub fn is_empty(&self) -> (r: bool)
        requires
            self.wf(),
        ensures
            r == (self.spec_len() == 0),
    {
        self.len() == 0
    }

    /// Removes every value and lays out all `capacity` slots as vacant, in
    /// ascending order.
    pub fn clear(&mut self)
        requires
            old(self).wf(),
        ensures
            final(self).wf(),
            final(self).slots() == Seq::new(old(self).spec_capacity(), |k: int| None::<T>),
            final(self).vacancies() == Self::fresh_run(0, old(self).spec_capacity() as int),
            forall|j: int| #[trigger] final(self).at(j) is None,
            final(self).spec_offset() == old(self).spec_offset(),
            final(self).spec_capacity() == old(self).spec_capacity(),
            final(self).spec_can_grow() == old(self).spec_can_grow(),
    {
        let cap = self.capacity;
        let mut inner: Vec<Entry<T>> = Vec::new();
        let mut i: usize = 0;
        while i < cap
            invariant
                i <= cap,
                inner@.len() == i,
                forall|k: int| 0 <= k < i ==> #[trigger] inner@[k] == Entry::<T>::Vacant((k + 1) as usize),
            decreases cap - i,
        {
            inner.push(Entry::Vacant(i + 1));
            i = i + 1;
        }
        self.inner = inner;
        self.next = 0;
        self.vacant = Ghost(Self::fresh_run(0, cap as int));
        self.length = 0;
        proof {
            let v = self.vacant@;
            assert forall|k: int| 0 <= k < v.len() implies {
                &&& 0 <= #[trigger] v[k] < self.inner@.len()
                &&& self.inner@[v[k]] == Entry::<T>::Vacant(self.link_of(k) as usize)
            } by {}
            assert forall|j: int|
                0 <= j < self.inner@.len() && (#[trigger] self.inner@[j]) is Vacant implies v.contains(j) by {
                assert(v[j] == j);
            }
            assert(self.slots() =~= Seq::new(cap as nat, |k: int| None::<T>));
        }
    }
}

/// Removing a stored value and then inserting another hands the removed
/// index out again.
pub proof fn lemma_remove_then_insert<T>(
    before: PreVec<T>,
    index: usize,
    taken: Option<T>,
    between: PreVec<T>,
    w: T,
    after: PreVec<T>,
    r: Result<usize, Error>,
)
    requires
        before.wf(),
        PreVec::removes(before, index, between, taken),
        taken is Some,
        PreVec::inserts(between, w, after, r),
    ensures
        r == Ok::<usize, Error>(index),
{
}

/// After a removal, the next insert returns the removed index, and that
/// index is the lowest vacant one whenever no lower slot was vacant before.
pub proof fn lemma_recycle_lowest<T>(
    before: PreVec<T>,
    index: usize,
    taken: Option<T>,
    between: PreVec<T>,
    w: T,
    after: PreVec<T>,
    r: Result<usize, Error>,
)
    requires
        before.wf(),
        PreVec::removes(before, index, between, taken),
        taken is Some,
        PreVec::inserts(between, w, after, r),
        forall|j: int|
            before.spec_offset() <= j < index ==> (#[trigger] before.at(j)) is Some,
    ensures
        r == Ok::<usize, Error>(index),
        forall|j: int| between.spec_offset() <= j < index ==> (#[trigger] between.at(j)) is Some,
        between.at(index as int) is None,
{
}

/// Two vectors whose ranges `[offset, offset + capacity)` do not meet, and
/// which may not grow, never hold the same index; the next index either one
/// hands out lies in its own range, which that insert leaves unchanged.
pub proof fn lemma_disjoint_ranges<T, U>(a: PreVec<T>, b: PreVec<U>)
    requires
        a.wf(),
        b.wf(),
        !a.spec_can_grow(),
        !b.spec_can_grow(),
        a.spec_offset() + a.spec_capacity() <= b.spec_offset() || b.spec_offset()
            + b.spec_capacity() <= a.spec_offset(),
    ensures
        forall|i: int| (#[trigger] a.at(i)) is Some ==> b.at(i) is None,
        a.can_insert() ==> {
            &&& a.spec_offset() <= a.next_index() < a.spec_offset() + a.spec_capacity()
            &&& !(b.spec_offset() <= a.next_index() < b.spec_offset() + b.spec_capacity())
            &&& a.capacity_after_insert() == a.spec_capacity()
        },
        b.can_insert() ==> {
            &&& b.spec_offset() <= b.next_index() < b.spec_offset() + b.spec_capacity()
            &&& !(a.spec_offset() <= b.next_index() < a.spec_offset() + a.spec_capacity())
            &&& b.capacity_after_insert() == b.spec_capacity()
        },
{
    a.lemma_vacancies();
    b.lemma_vacancies();
    if a.vacancies().len() > 0 {
        assert(0 <= a.vacancies()[0] < a.slots().len());
    }
    if b.vacancies().len() > 0 {
        assert(0 <= b.vacancies()[0] < b.slots().len());
    }
}

} // verus!
