//! Shared cells: one value, many handles.
//!
//! A [`CellStore`] owns every shared value together with the number of strong
//! handles that keep it alive. A [`Cell`] is a strong handle, a [`WeakCell`]
//! an observer that does not keep the value alive. Every access goes through
//! a borrow of the store, so two handles can never hold a mutable borrow of
//! the same value at the same time.
//!
//! A handle belongs to the store it was made in. Handles are counted where
//! they are made and where they are given up with `release`; one that is
//! merely dropped stays counted, and its value lives as long as the store.

use std::marker::PhantomData;
use vstd::prelude::*;

verus! {

/// What the store holds for one live value.
pub struct Shared<T> {
    /// The shared value.
    pub value: T,
    /// How many strong handles keep it alive; at least one.
    pub strong: nat,
}

/// What a store holds: one entry per value ever created, in order of
/// creation, `None` once the last strong handle to it is gone.
pub type Shelf<T> = Seq<Option<Shared<T>>>;

/// Whether the value with this identity still exists.
pub open spec fn live<T>(shelf: Shelf<T>, id: int) -> bool {
    0 <= id < shelf.len() && shelf[id] is Some
}

/// The number of strong handles to this identity; zero once it is gone.
pub open spec fn strong<T>(shelf: Shelf<T>, id: int) -> nat {
    if live(shelf, id) {
        shelf[id]->0.strong
    } else {
        0
    }
}

/// The shelf after a new value came in with its first strong handle.
pub open spec fn created<T>(shelf: Shelf<T>, value: T) -> Shelf<T> {
    shelf.push(Some(Shared { value, strong: 1 }))
}

/// The shelf after one more strong handle to `id` was made. Nothing brings
/// back a value that is gone.
pub open spec fn retained<T>(shelf: Shelf<T>, id: int) -> Shelf<T> {
    if live(shelf, id) {
        shelf.update(
            id,
            Some(Shared { value: shelf[id]->0.value, strong: shelf[id]->0.strong + 1 }),
        )
    } else {
        shelf
    }
}

/// The shelf after one strong handle to `id` was given up: with the last
/// one the value goes.
pub open spec fn released<T>(shelf: Shelf<T>, id: int) -> Shelf<T> {
    if !live(shelf, id) {
        shelf
    } else if shelf[id]->0.strong <= 1 {
        shelf.update(id, None)
    } else {
        shelf.update(
            id,
            Some(
                Shared { value: shelf[id]->0.value, strong: (shelf[id]->0.strong - 1) as nat },
            ),
        )
    }
}

/// The shelf after `value` was written through a handle to `id`.
pub open spec fn written<T>(shelf: Shelf<T>, id: int, value: T) -> Shelf<T> {
    if live(shelf, id) {
        shelf.update(id, Some(Shared { value, strong: shelf[id]->0.strong }))
    } else {
        shelf
    }
}

/// Every value on the shelf has at least one strong handle.
pub open spec fn well_counted<T>(shelf: Shelf<T>) -> bool {
    forall|id: int| 0 <= id < shelf.len() && shelf[id] is Some ==> (#[trigger] shelf[id])->0.strong >= 1
}

/// The shelf after `n` more strong handles to `id` were made.
pub open spec fn retained_times<T>(shelf: Shelf<T>, id: int, n: nat) -> Shelf<T>
    decreases n,
{
    if n == 0 {
        shelf
    } else {
        retained(retained_times(shelf, id, (n - 1) as nat), id)
    }
}

/// The shelf after `n` strong handles to `id` were given up.
pub open spec fn released_times<T>(shelf: Shelf<T>, id: int, n: nat) -> Shelf<T>
    decreases n,
{
    if n == 0 {
        shelf
    } else {
        released(released_times(shelf, id, (n - 1) as nat), id)
    }
}

/// Owner of all values that cells of type `T` share.
#[derive(Debug)]
pub struct CellStore<T> {
    values: Vec<Option<T>>,
    counts: Vec<usize>,
}

/// Strong handle to a value in a [`CellStore`].
#[derive(Debug)]
pub struct Cell<T> {
    id: usize,
    marker: PhantomData<T>,
}

/// Observer of a value in a [`CellStore`]; it does not keep the value alive.
#[derive(Debug)]
pub struct WeakCell<T> {
    id: usize,
    marker: PhantomData<T>,
}

impl<T> View for CellStore<T> {
    type V = Shelf<T>;

    closed spec fn view(&self) -> Shelf<T> {
        Seq::new(
            self.values@.len(),
            |i: int|
                match self.values@[i] {
                    Some(value) => Some(Shared { value, strong: self.counts@[i] as nat }),
                    None => None,
                },
        )
    }
}

impl<T> CellStore<T> {
    /// The representation is consistent: a value is present exactly where
    /// the strong count is positive.
    pub closed spec fn wf(&self) -> bool {
        &&& self.values@.len() == self.counts@.len()
        &&& forall|i: int|
            0 <= i < self.values@.len() ==> (#[trigger] self.values@[i] is Some
                <==> self.counts@[i] > 0)
    }

    /// Whether the value with this identity still exists.
    pub open spec fn live(&self, id: int) -> bool {
        live(self@, id)
    }

    /// The value with this identity; meaningful where `live(id)`.
    pub open spec fn value(&self, id: int) -> T {
        self@[id]->0.value
    }

    /// The number of strong handles to this identity; zero once it is gone.
    pub open spec fn strong(&self, id: int) -> nat {
        strong(self@, id)
    }

    /// A store that holds nothing.
    pub fn new() -> (store: Self)
        ensures
            store.wf(),
            store@ == Shelf::<T>::empty(),
    {
        CellStore { values: Vec::new(), counts: Vec::new() }
    }

    /// How many values were ever put into this store.
    pub fn len(&self) -> (len: usize)
        ensures
            len == self@.len(),
    {
        self.values.len()
    }
}

impl<T> Cell<T> {
    /// The identity of the value that this handle refers to.
    pub closed spec fn id(&self) -> int {
        self.id as int
    }

    /// Puts `inner` into the store and returns the first strong handle to it.
    pub fn new(store: &mut CellStore<T>, inner: T) -> (cell: Self)
        requires
            old(store).wf(),
        ensures
            final(store).wf(),
            cell.id() == old(store)@.len(),
            final(store)@ == created(old(store)@, inner),
    {
        let id = store.values.len();
        store.values.push(Some(inner));
        store.counts.push(1);
        Cell { id, marker: PhantomData }
    }

    /// Another strong handle to the same value: the value is not copied, the
    /// strong count grows by one.
    pub fn clone(&self, store: &mut CellStore<T>) -> (cell: Self)
        requires
            old(store).wf(),
            old(store).live(self.id()),
            old(store).strong(self.id()) < usize::MAX,
        ensures
            final(store).wf(),
            cell.id() == self.id(),
            final(store)@ == retained(old(store)@, self.id()),
    {
        let count = store.counts[self.id];
        store.counts.set(self.id, count + 1);
        Cell { id: self.id, marker: PhantomData }
    }

    /// An observer of the same value. The strong count does not change.
    pub fn downgrade(&self) -> (weak: WeakCell<T>)
        ensures
            weak.id() == self.id(),
    {
        WeakCell { id: self.id, marker: PhantomData }
    }

    /// Whether the value of this handle still exists in `store`.
    pub fn is_live(&self, store: &CellStore<T>) -> (live: bool)
        requires
            store.wf(),
        ensures
            live == store.live(self.id()),
    {
        self.id < store.counts.len() && store.counts[self.id] > 0
    }

    /// The number of strong handles to the value of this handle.
    pub fn strong_count(&self, store: &CellStore<T>) -> (count: usize)
        requires
            store.wf(),
        ensures
            count == store.strong(self.id()),
    {
        if self.id < store.counts.len() {
            store.counts[self.id]
        } else {
            0
        }
    }

    /// Whether both handles refer to the same value.
    pub fn same(&self, other: &Cell<T>) -> (same: bool)
        ensures
            same == (self.id() == other.id()),
    {
        self.id == other.id
    }

    /// Shared borrow of the value.
    pub fn get_ref<'a>(&self, store: &'a CellStore<T>) -> (value: &'a T)
        requires
            store.wf(),
            store.live(self.id()),
        ensures
            *value == store.value(self.id()),
    {
        store.values[self.id].as_ref().unwrap()
    }

    /// Mutable borrow of the value. While it lasts the store is borrowed, so
    /// no other handle can reach the value; what is written through it is
    /// what every handle to the same value sees afterwards.
    pub fn get_mut<'a>(&mut self, store: &'a mut CellStore<T>) -> (value: &'a mut T)
        requires
            old(store).wf(),
            old(store).live(old(self).id()),
        ensures
            *final(self) == *old(self),
            *value == old(store).value(old(self).id()),
            final(store).wf(),
            final(store)@ == written(old(store)@, old(self).id(), *final(value)),
    {
        match &mut store.values[self.id] {
            Some(value) => value,
            None => vstd::pervasive::unreached(),
        }
    }

    /// Gives the handle up. The strong count drops by one; with the last
    /// strong handle the value is destroyed.
    pub fn release(self, store: &mut CellStore<T>)
        requires
            old(store).wf(),
            old(store).live(self.id()),
        ensures
            final(store).wf(),
            final(store)@ == released(old(store)@, self.id()),
    {
        let count = store.counts[self.id];
        store.counts.set(self.id, count - 1);
        if count == 1 {
            store.values.set(self.id, None);
        }
    }
}

impl<T> WeakCell<T> {
    /// The identity of the value that this observer refers to.
    pub closed spec fn id(&self) -> int {
        self.id as int
    }

    /// The number of strong handles to the value of this observer; zero
    /// once the value is gone.
    pub fn strong_count(&self, store: &CellStore<T>) -> (count: usize)
        requires
            store.wf(),
        ensures
            count == store.strong(self.id()),
    {
        if self.id < store.counts.len() {
            store.counts[self.id]
        } else {
            0
        }
    }

    /// A new strong handle if the value still exists, `None` once the last
    /// strong handle is gone.
    pub fn upgrade(&self, store: &mut CellStore<T>) -> (cell: Option<Cell<T>>)
        requires
            old(store).wf(),
            old(store).strong(self.id()) < usize::MAX,
        ensures
            final(store).wf(),
            cell is Some <==> old(store).live(self.id()),
            cell matches Some(c) ==> c.id() == self.id(),
            final(store)@ == retained(old(store)@, self.id()),
    {
        if self.id < store.counts.len() && store.counts[self.id] > 0 {
            let count = store.counts[self.id];
            store.counts.set(self.id, count + 1);
            Some(Cell { id: self.id, marker: PhantomData })
        } else {
            None
        }
    }
}

impl<T> CellStore<T> {
    /// In a consistent store every value has at least one strong handle.
    pub proof fn lemma_well_counted(&self)
        requires
            self.wf(),
        ensures
            well_counted(self@),
    {
        assert forall|id: int| 0 <= id < self@.len() && self@[id] is Some implies (
        #[trigger] self@[id])->0.strong >= 1 by {
            assert(self.values@[id] is Some);
        }
    }
}

/// Handles share storage. However many strong handles to a value are made,
/// the value is not copied and keeps its identity, and the strong count
/// grows by their number. What is then written through any one handle is
/// what every handle to that identity reads, the first one included; no
/// other value changes, and no count.
pub proof fn lemma_handles_share_storage<T>(shelf: Shelf<T>, id: int, n: nat, value: T)
    requires
        live(shelf, id),
    ensures
        retained_times(shelf, id, n).len() == shelf.len(),
        live(retained_times(shelf, id, n), id),
        retained_times(shelf, id, n)[id]->0.value == shelf[id]->0.value,
        strong(retained_times(shelf, id, n), id) == strong(shelf, id) + n,
        forall|other: int|
            0 <= other < shelf.len() && other != id ==> #[trigger] retained_times(
                shelf,
                id,
                n,
            )[other] == shelf[other],
        live(written(retained_times(shelf, id, n), id, value), id),
        written(retained_times(shelf, id, n), id, value)[id]->0.value == value,
        strong(written(retained_times(shelf, id, n), id, value), id) == strong(shelf, id) + n,
        forall|other: int|
            0 <= other < shelf.len() && other != id ==> #[trigger] written(
                retained_times(shelf, id, n),
                id,
                value,
            )[other] == shelf[other],
    decreases n,
{
    if n > 0 {
        lemma_handles_share_storage(shelf, id, (n - 1) as nat, value);
    }
}

/// A weak handle follows the strong ones. While fewer strong handles were
/// given up than there were, the value exists, unchanged, so that an
/// upgrade gives a handle to it. Once all were given up the value is gone,
/// so that an upgrade gives nothing.
pub proof fn lemma_weak_follows_strong<T>(shelf: Shelf<T>, id: int, n: nat)
    requires
        well_counted(shelf),
        live(shelf, id),
    ensures
        well_counted(released_times(shelf, id, n)),
        released_times(shelf, id, n).len() == shelf.len(),
        n < strong(shelf, id) ==> live(released_times(shelf, id, n), id) && released_times(
            shelf,
            id,
            n,
        )[id]->0.value == shelf[id]->0.value && strong(released_times(shelf, id, n), id) == strong(
            shelf,
            id,
        ) - n,
        n >= strong(shelf, id) ==> !live(released_times(shelf, id, n), id),
    decreases n,
{
    if n > 0 {
        lemma_weak_follows_strong(shelf, id, (n - 1) as nat);
    }
}

/// A value that is gone stays gone: nothing that is done through a handle,
/// to this identity or to another, brings it back, and a new value gets a
/// new identity.
pub proof fn lemma_gone_stays_gone<T>(shelf: Shelf<T>, id: int, other: int, value: T)
    requires
        0 <= id < shelf.len(),
        !live(shelf, id),
    ensures
        !live(retained(shelf, other), id),
        !live(released(shelf, other), id),
        !live(written(shelf, other, value), id),
        !live(created(shelf, value), id),
        live(created(shelf, value), shelf.len() as int),
{
}

} // verus!
