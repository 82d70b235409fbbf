use vstd::prelude::*;

verus! {

/// Retags an emptied backing store with the placeholder lifetime so the
/// allocation can be stored in a holder and reused under an unrelated
/// lifetime later.
///
/// Relies on std's `Vec`: draining an already empty vector through
/// `into_iter` and collecting what `filter_map` lets through (nothing)
/// yields a vector with no elements, reusing the same allocation.  The
/// operation never sees a live reference: the input is required to be
/// empty, so no reference is ever carried across the retagging.
#[verifier::external_body]
fn erase_lifetime<T>(v: Vec<&T>) -> (r: Vec<&'static T>)
    requires
        v@.len() == 0,
    ensures
        r@.len() == 0,
{
    v.into_iter().filter_map(|_| -> Option<&'static T> { None }).collect()
}

/// A reusable backing store for short-lived collections of borrowed
/// references.  While at rest it is guaranteed to hold no references at
/// all, so its allocation can safely be handed out again under any fresh
/// lifetime; only the allocation's capacity survives from one use to the
/// next.
pub struct EmptyBorrowVec<T: 'static> {
    empty: Option<Vec<&'static T>>,
}

impl<T: 'static> EmptyBorrowVec<T> {
    /// The backing store is present and holds no elements: the state every
    /// holder is in whenever no guard derived from it is alive.
    pub closed spec fn wf(self) -> bool {
        self.empty is Some && self.empty->Some_0@.len() == 0
    }

    /// A fresh holder, ready to lend its (initially unallocated) storage
    /// out.
    pub fn new() -> (r: Self)
        ensures
            r.wf(),
    {
        EmptyBorrowVec { empty: Some(Vec::new()) }
    }

    /// Begins a scope: relocates the backing storage into a guard bound to
    /// a caller-chosen lifetime `'t`, leaving the holder storage-absent and
    /// mutably borrowed — hence inaccessible — until the guard is released.
    pub fn get_mut<'t>(&mut self) -> (g: BorrowVecGuard<'_, 't, T>)
        requires
            old(self).wf(),
        ensures
            g@ == Seq::<&'t T>::empty(),
            *final(self) == *final(g.parent_ref()),
    {
        let vec = self.empty.take().unwrap();
        BorrowVecGuard { parent: self, vec }
    }

    /// Consumes the holder and fixes a caller-chosen lifetime on its
    /// storage; a pure relabeling, so the sequence starts out empty.
    pub fn take<'t>(self) -> (r: BorrowVec<'t, T>)
        requires
            self.wf(),
        ensures
            r@ == Seq::<&'t T>::empty(),
    {
        let vec = self.empty.unwrap();
        proof {
            assert(vec@ =~= Seq::<&'static T>::empty());
        }
        BorrowVec { vec }
    }
}

impl<T: 'static> Default for EmptyBorrowVec<T> {
    /// The same holder as [`EmptyBorrowVec::new`] returns.
    fn default() -> (r: Self)
        ensures
            r.wf(),
    {
        Self::new()
    }
}

/// A scoped handle on a holder's storage: while the guard is alive the
/// holder is mutably borrowed and therefore inaccessible, and the storage
/// is typed with the caller-chosen lifetime `'t`.
///
/// A scope is ended with [`BorrowVecGuard::release`], which is what hands
/// the storage back; a guard that is merely dropped keeps the holder
/// storage-absent, and no later use of that holder can be verified.
pub struct BorrowVecGuard<'guard, 't, T: 'static> {
    parent: &'guard mut EmptyBorrowVec<T>,
    vec: Vec<&'t T>,
}

impl<'guard, 't, T: 'static> BorrowVecGuard<'guard, 't, T> {
    /// The references currently held, in push order.
    pub closed spec fn view(self) -> Seq<&'t T> {
        self.vec@
    }

    /// The exclusive borrow of the originating holder that the guard keeps
    /// for its whole lifetime.
    pub closed spec fn parent_ref(self) -> &'guard mut EmptyBorrowVec<T> {
        self.parent
    }

    /// Read access to the references pushed so far, in push order.
    pub fn get(&self) -> (r: &Vec<&'t T>)
        ensures
            r@ == self@,
    {
        &self.vec
    }

    /// Mutable access to the backing sequence, for pushing, sorting or
    /// truncating; the guard's view follows whatever the caller does with
    /// the returned vector, while the originating holder stays the same.
    pub fn get_mut(&mut self) -> (r: &mut Vec<&'t T>)
        ensures
            r@ == old(self)@,
            final(self)@ == final(r)@,
            final(self).parent_ref() == old(self).parent_ref(),
    {
        &mut self.vec
    }

    /// Ends the scope: clears every element, erases the scope's lifetime
    /// tag from the emptied storage, and hands the storage back to the
    /// originating holder, which becomes usable again once the guard's
    /// borrow of it expires.
    pub fn release(self)
        ensures
            (*final(self.parent_ref())).wf(),
    {
        let BorrowVecGuard { parent, mut vec } = self;
        vec.clear();
        parent.empty = Some(erase_lifetime(vec));
    }
}

/// A holder's storage converted, for good, into a live sequence of
/// references with a fixed lifetime `'t`; unlike a guard it keeps no
/// back-reference and is held for as long as the caller likes, until an
/// explicit `clear` turns it back into a holder.
pub struct BorrowVec<'t, T: 'static> {
    vec: Vec<&'t T>,
}

impl<'t, T: 'static> BorrowVec<'t, T> {
    /// The references currently held, in push order.
    pub closed spec fn view(self) -> Seq<&'t T> {
        self.vec@
    }

    /// Erases the lifetime on `T` and returns a holder that reuses the
    /// inner [`Vec`]'s allocation in the future; every element is removed
    /// before the lifetime tag is erased.
    pub fn clear(self) -> (r: EmptyBorrowVec<T>)
        ensures
            r.wf(),
    {
        let mut vec = self.vec;
        vec.clear();
        EmptyBorrowVec { empty: Some(erase_lifetime(vec)) }
    }

    /// Read access to the references pushed so far, in push order.
    pub fn get(&self) -> (r: &Vec<&'t T>)
        ensures
            r@ == self@,
    {
        &self.vec
    }

    /// Mutable access to the backing sequence; the view follows whatever
    /// the caller does with the returned vector.
    pub fn get_mut(&mut self) -> (r: &mut Vec<&'t T>)
        ensures
            r@ == old(self)@,
            final(self)@ == final(r)@,
    {
        &mut self.vec
    }
}

/// Law: whatever references a scope pushes, the guard holds exactly those
/// references, in push order — duplicates of one datum included, since the
/// result is the pushed sequence itself.
pub fn pushed_in_order<'holder, 't, T: 'static>(
    h: &'holder mut EmptyBorrowVec<T>,
    xs: Vec<&'t T>,
) -> (g: BorrowVecGuard<'holder, 't, T>)
    requires
        old(h).wf(),
    ensures
        g@ == xs@,
        *final(h) == *final(g.parent_ref()),
{
    let mut g = h.get_mut();
    let mut i: usize = 0;
    while i < xs.len()
        invariant
            i <= xs.len(),
            g@ == xs@.take(i as int),
            after_borrow(*h) == *final(g.parent_ref()),
        decreases xs.len() - i,
    {
        g.get_mut().push(xs[i]);
        proof {
            assert(g@ =~= xs@.take(i + 1));
        }
        i += 1;
    }
    proof {
        assert(g@ =~= xs@);
    }
    g
}

/// Law: a scope begun after an earlier scope pushed any number of
/// elements and released sees an empty sequence — nothing leaks from one
/// scope into the next.
pub fn scope_round_trip<'holder, 't, 'u, T: 'static>(
    h: &'holder mut EmptyBorrowVec<T>,
    xs: Vec<&'t T>,
) -> (g: BorrowVecGuard<'holder, 'u, T>)
    requires
        old(h).wf(),
    ensures
        g@ == Seq::<&'u T>::empty(),
        *final(h) == *final(g.parent_ref()),
{
    let g1 = pushed_in_order(h, xs);
    g1.release();
    h.get_mut()
}

/// Law: converting a holder to a bound sequence, pushing any number of
/// elements and clearing yields a holder whose next bound sequence is
/// empty — nothing survives a clear but the storage itself.
pub fn bound_round_trip<'t, 'u, T: 'static>(
    h: EmptyBorrowVec<T>,
    xs: Vec<&'t T>,
) -> (b: BorrowVec<'u, T>)
    requires
        h.wf(),
    ensures
        b@ == Seq::<&'u T>::empty(),
{
    let mut b1 = h.take();
    let mut i: usize = 0;
    while i < xs.len()
        invariant
            i <= xs.len(),
        decreases xs.len() - i,
    {
        b1.get_mut().push(xs[i]);
        i += 1;
    }
    let h2 = b1.clear();
    h2.take()
}

} // verus!
