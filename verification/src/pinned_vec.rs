//! A growable buffer whose memory may be registered with a DMA backend.
//!
//! The buffer keeps two flags: `pinnable`, the user's wish, and `pinned`,
//! whether its memory is registered now. Registration follows the buffer's
//! allocation: it is dropped before the buffer grows out of its capacity and
//! taken up again on the new allocation. The buffer keeps the flags; the
//! calls into the backend are its owner's part. None of this shows in what
//! the buffer holds.

use rand::seq::SliceRandom;
use vstd::prelude::*;

verus! {

/// `Vec::capacity`: how many elements the vector can hold without
/// allocating again. It depends on the allocator; it is never less than the
/// vector's length.
#[verifier::external_body]
fn vec_capacity<T>(v: &Vec<T>) -> (capacity: usize)
    ensures
        capacity >= v@.len(),
{
    v.capacity()
}

/// `SliceRandom::shuffle` with the thread's generator: the elements are
/// put in a random order; each stays as often as it was there.
#[verifier::external_body]
fn shuffle_vec<T>(v: &mut Vec<T>)
    ensures
        final(v)@.to_multiset() == old(v)@.to_multiset(),
{
    v.shuffle(&mut rand::thread_rng());
}

/// Whether a pinned buffer of `capacity` elements has to be unpinned before
/// it is made to hold `new_size`: growth past the capacity moves the memory.
pub fn unpin_before_growth(pinned: bool, capacity: usize, new_size: u128) -> (unpin: bool)
    ensures
        unpin == (pinned && capacity < new_size),
{
    pinned && (capacity as u128) < new_size
}

/// The rule by which a change that takes a buffer to `new_size` elements
/// leaves it pinned or not, where `old_capacity` and `capacity` are the
/// buffer's capacities before and after the change. A pinned buffer stays
/// pinned when it had room for the new size; and whatever it was before,
/// with a backend present a pinnable buffer whose allocation changed is
/// pinned on the new one.
pub open spec fn pin_rule(
    before: bool,
    after: bool,
    backend: bool,
    pinnable: bool,
    new_size: nat,
    old_capacity: usize,
    capacity: usize,
) -> bool {
    after == ((before && old_capacity >= new_size) || (backend && pinnable && capacity
        != old_capacity))
}

/// Whether a buffer is pinned after it changed: with a backend present and
/// the buffer pinnable, a buffer whose allocation changed is pinned anew.
pub fn pin_after_growth(backend: bool, pinnable: bool, old_capacity: usize, capacity: usize) -> (pin:
    bool)
    ensures
        pin == (backend && pinnable && capacity != old_capacity),
{
    backend && pinnable && capacity != old_capacity
}

/// A vector whose memory can be page-pinned.
#[derive(Debug)]
pub struct PinnedVec<T> {
    x: Vec<T>,
    pinned: bool,
    pinnable: bool,
    backend: bool,
}

impl<T> View for PinnedVec<T> {
    type V = Seq<T>;

    closed spec fn view(&self) -> Seq<T> {
        self.x@
    }
}

/// A walk over a buffer's elements, first to last.
pub struct PinnedIter<'a, T> {
    items: &'a [T],
    next: usize,
}

impl<'a, T> PinnedIter<'a, T> {
    /// The elements still to come.
    pub closed spec fn remaining(&self) -> Seq<T> {
        self.items@.subrange(self.next as int, self.items@.len() as int)
    }

    /// Whether the walk is within its buffer.
    pub closed spec fn wf(&self) -> bool {
        self.next <= self.items@.len()
    }

    /// The next element, if one is left.
    pub fn next(&mut self) -> (item: Option<&'a T>)
        requires
            old(self).wf(),
        ensures
            final(self).wf(),
            old(self).remaining().len() == 0 ==> item.is_none() && final(self).remaining()
                == old(self).remaining(),
            old(self).remaining().len() > 0 ==> item.is_some() && *item.unwrap() == old(
                self,
            ).remaining()[0] && final(self).remaining() == old(self).remaining().drop_first(),
    {
        if self.next < self.items.len() {
            let item = &self.items[self.next];
            self.next = self.next + 1;
            proof {
                assert(final(self).remaining() =~= old(self).remaining().drop_first());
            }
            Some(item)
        } else {
            None
        }
    }
}

impl<T> PinnedVec<T> {
    /// Whether the buffer's memory counts as registered.
    pub closed spec fn pinned(&self) -> bool {
        self.pinned
    }

    /// Whether the buffer is to be pinned when it can be.
    pub closed spec fn pinnable(&self) -> bool {
        self.pinnable
    }

    /// Whether a DMA backend is present.
    pub closed spec fn backend(&self) -> bool {
        self.backend
    }

    /// Whether the buffer's memory counts as registered.
    pub fn is_pinned(&self) -> (pinned: bool)
        ensures
            pinned == self.pinned(),
    {
        self.pinned
    }

    /// Whether the buffer is to be pinned when it can be.
    pub fn is_pinnable(&self) -> (pinnable: bool)
        ensures
            pinnable == self.pinnable(),
    {
        self.pinnable
    }

    /// Says whether a DMA backend is present. Without one a buffer is never
    /// pinned on growth.
    pub fn set_backend(&mut self, present: bool)
        ensures
            final(self)@ == old(self)@,
            final(self).backend() == present,
            final(self).pinned() == old(self).pinned(),
            final(self).pinnable() == old(self).pinnable(),
    {
        self.backend = present;
    }

    /// A buffer without elements.
    pub fn new() -> (buffer: Self)
        ensures
            buffer@ == Seq::<T>::empty(),
            !buffer.pinned(),
            !buffer.pinnable(),
            !buffer.backend(),
    {
        PinnedVec { x: Vec::new(), pinned: false, pinnable: false, backend: false }
    }

    /// A walk over the elements, first to last.
    pub fn iter(&self) -> (iter: PinnedIter<'_, T>)
        ensures
            iter.wf(),
            iter.remaining() == self@,
    {
        let iter = PinnedIter { items: self.x.as_slice(), next: 0 };
        proof {
            assert(iter.remaining() =~= self@);
        }
        iter
    }

    /// The elements as a slice.
    pub fn as_slice(&self) -> (items: &[T])
        ensures
            items@ == self@,
    {
        self.x.as_slice()
    }

    /// The element at `index`.
    pub fn get(&self, index: usize) -> (item: &T)
        requires
            index < self@.len(),
        ensures
            *item == self@[index as int],
    {
        &self.x[index]
    }

    /// Puts `value` at `index`.
    pub fn set(&mut self, index: usize, value: T)
        requires
            index < old(self)@.len(),
        ensures
            final(self)@ == old(self)@.update(index as int, value),
            final(self).pinned() == old(self).pinned(),
            final(self).pinnable() == old(self).pinnable(),
            final(self).backend() == old(self).backend(),
    {
        self.x[index] = value;
    }

    /// Makes room for `size` more elements where the capacity is below
    /// `size`, marks the buffer pinnable and pins it.
    pub fn reserve_and_pin(&mut self, size: usize)
        ensures
            final(self)@ == old(self)@,
            final(self).pinnable(),
            final(self).pinned(),
            final(self).backend() == old(self).backend(),
    {
        if vec_capacity(&self.x) < size {
            self.pinned = false;
            self.x.reserve(size);
        }
        self.set_pinnable();
        self.pinned = true;
    }

    /// Marks the buffer as one to pin.
    pub fn set_pinnable(&mut self)
        ensures
            final(self)@ == old(self)@,
            final(self).pinnable(),
            final(self).pinned() == old(self).pinned(),
            final(self).backend() == old(self).backend(),
    {
        self.pinnable = true;
    }

    /// The buffer that holds what `source` holds. It is neither pinnable
    /// nor pinned.
    pub fn from_vec(source: Vec<T>) -> (buffer: Self)
        ensures
            buffer@ == source@,
            !buffer.pinned(),
            !buffer.pinnable(),
            !buffer.backend(),
    {
        PinnedVec { x: source, pinned: false, pinnable: false, backend: false }
    }

    /// An empty buffer with room for `capacity` elements. It is neither
    /// pinnable nor pinned.
    pub fn with_capacity(capacity: usize) -> (buffer: Self)
        ensures
            buffer@ == Seq::<T>::empty(),
            !buffer.pinned(),
            !buffer.pinnable(),
            !buffer.backend(),
    {
        PinnedVec { x: Vec::with_capacity(capacity), pinned: false, pinnable: false, backend: false }
    }

    /// Whether the buffer holds nothing.
    pub fn is_empty(&self) -> (empty: bool)
        ensures
            empty == (self@.len() == 0),
    {
        self.x.len() == 0
    }

    /// The number of elements.
    pub fn len(&self) -> (len: usize)
        ensures
            len == self@.len(),
    {
        self.x.len()
    }

    /// Before a change that may take the buffer to `new_size` elements:
    /// unpins a pinned buffer that would have to grow. Returns the
    /// capacity before the change.
    fn prepare_realloc(&mut self, new_size: u128) -> (old_capacity: usize)
        ensures
            final(self)@ == old(self)@,
            final(self).pinnable() == old(self).pinnable(),
            final(self).backend() == old(self).backend(),
            final(self).pinned() == (old(self).pinned() && old_capacity >= new_size),
    {
        let old_capacity = vec_capacity(&self.x);
        if unpin_before_growth(self.pinned, old_capacity, new_size) {
            self.pinned = false;
        }
        old_capacity
    }

    /// After a change: pins the buffer anew where its allocation changed,
    /// a backend is present and the buffer is pinnable. Returns the
    /// capacity after the change, which has room for all that the buffer
    /// holds.
    fn check_ptr(&mut self, old_capacity: usize) -> (capacity: usize)
        ensures
            final(self)@ == old(self)@,
            final(self).pinnable() == old(self).pinnable(),
            final(self).backend() == old(self).backend(),
            final(self).pinned() == (old(self).pinned() || (old(self).backend() && old(
                self,
            ).pinnable() && capacity != old_capacity)),
            capacity >= final(self)@.len(),
    {
        let capacity = vec_capacity(&self.x);
        if pin_after_growth(self.backend, self.pinnable, old_capacity, capacity) {
            self.pinned = true;
        }
        capacity
    }

    /// Adds `x` at the end.
    pub fn push(&mut self, x: T)
        ensures
            final(self)@ == old(self)@.push(x),
            final(self).pinnable() == old(self).pinnable(),
            final(self).backend() == old(self).backend(),
            exists|old_capacity: usize, capacity: usize| #[trigger]
                pin_rule(
                    old(self).pinned(),
                    final(self).pinned(),
                    old(self).backend(),
                    old(self).pinnable(),
                    old(self)@.len() + 1,
                    old_capacity,
                    capacity,
                ),
    {
        let new_size: u128 = self.x.len() as u128 + 1;
        let old_capacity = self.prepare_realloc(new_size);
        self.x.push(x);
        let capacity = self.check_ptr(old_capacity);
        proof {
            assert(pin_rule(
                old(self).pinned(),
                self.pinned(),
                old(self).backend(),
                old(self).pinnable(),
                old(self)@.len() + 1,
                old_capacity,
                capacity,
            ));
        }
    }

    /// Keeps the first `size` elements, or all where there are fewer.
    pub fn truncate(&mut self, size: usize)
        ensures
            final(self)@ == (if size <= old(self)@.len() {
                old(self)@.subrange(0, size as int)
            } else {
                old(self)@
            }),
            final(self).pinned() == old(self).pinned(),
            final(self).pinnable() == old(self).pinnable(),
            final(self).backend() == old(self).backend(),
    {
        self.x.truncate(size);
    }

    /// Takes the elements of `other` over at the end, in their order, and
    /// leaves `other` empty.
    pub fn append(&mut self, other: &mut Vec<T>)
        ensures
            final(self)@ == old(self)@ + old(other)@,
            final(other)@ == Seq::<T>::empty(),
            final(self).pinnable() == old(self).pinnable(),
            final(self).backend() == old(self).backend(),
            exists|old_capacity: usize, capacity: usize| #[trigger]
                pin_rule(
                    old(self).pinned(),
                    final(self).pinned(),
                    old(self).backend(),
                    old(self).pinnable(),
                    old(self)@.len() + old(other)@.len(),
                    old_capacity,
                    capacity,
                ),
    {
        let new_size: u128 = self.x.len() as u128 + other.len() as u128;
        let old_capacity = self.prepare_realloc(new_size);
        self.x.append(other);
        let capacity = self.check_ptr(old_capacity);
        proof {
            assert(pin_rule(
                old(self).pinned(),
                self.pinned(),
                old(self).backend(),
                old(self).pinnable(),
                old(self)@.len() + old(other)@.len(),
                old_capacity,
                capacity,
            ));
        }
    }

    /// Takes the elements of `other` over at the end, in their order, and
    /// leaves `other` empty. The flags of `other` stay as they are.
    pub fn append_pinned(&mut self, other: &mut Self)
        ensures
            final(self)@ == old(self)@ + old(other)@,
            final(other)@ == Seq::<T>::empty(),
            final(other).pinned() == old(other).pinned(),
            final(other).pinnable() == old(other).pinnable(),
            final(other).backend() == old(other).backend(),
            final(self).pinnable() == old(self).pinnable(),
            final(self).backend() == old(self).backend(),
            exists|old_capacity: usize, capacity: usize| #[trigger]
                pin_rule(
                    old(self).pinned(),
                    final(self).pinned(),
                    old(self).backend(),
                    old(self).pinnable(),
                    old(self)@.len() + old(other)@.len(),
                    old_capacity,
                    capacity,
                ),
    {
        let new_size: u128 = self.x.len() as u128 + other.x.len() as u128;
        let old_capacity = self.prepare_realloc(new_size);
        self.x.append(&mut other.x);
        let capacity = self.check_ptr(old_capacity);
        proof {
            assert(pin_rule(
                old(self).pinned(),
                self.pinned(),
                old(self).backend(),
                old(self).pinnable(),
                old(self)@.len() + old(other)@.len(),
                old_capacity,
                capacity,
            ));
        }
    }

    /// Puts the elements in a random order.
    pub fn shuffle(&mut self)
        ensures
            final(self)@.to_multiset() == old(self)@.to_multiset(),
            final(self).pinned() == old(self).pinned(),
            final(self).pinnable() == old(self).pinnable(),
            final(self).backend() == old(self).backend(),
    {
        shuffle_vec(&mut self.x);
    }
}

/// Growth pins a buffer only with a backend present and the buffer
/// pinnable, and it unpins none that had room: whatever the capacities
/// were, a buffer that is pinned after growth was pinned before or could be
/// pinned, and a pinned buffer with room for the new size stays pinned.
pub proof fn lemma_pin_rule_bounds(
    before: bool,
    after: bool,
    backend: bool,
    pinnable: bool,
    new_size: nat,
    old_capacity: usize,
    capacity: usize,
)
    requires
        pin_rule(before, after, backend, pinnable, new_size, old_capacity, capacity),
    ensures
        after ==> before || (backend && pinnable),
        !backend ==> (after ==> before),
        before && old_capacity >= new_size ==> after,
        backend && pinnable && capacity != old_capacity ==> after,
{
}

impl<T: Clone> PinnedVec<T> {
    /// Makes the buffer `size` elements long: a longer one is cut, a
    /// shorter one is filled up with clones of `elem`.
    pub fn resize(&mut self, size: usize, elem: T)
        ensures
            final(self)@.len() == size,
            size <= old(self)@.len() ==> final(self)@ == old(self)@.subrange(0, size as int),
            size > old(self)@.len() ==> final(self)@.subrange(0, old(self)@.len() as int) == old(
                self,
            )@,
            forall|i: int|
                old(self)@.len() <= i < size ==> cloned::<T>(elem, #[trigger] final(self)@[i]),
            final(self).pinnable() == old(self).pinnable(),
            final(self).backend() == old(self).backend(),
            exists|old_capacity: usize, capacity: usize| #[trigger]
                pin_rule(
                    old(self).pinned(),
                    final(self).pinned(),
                    old(self).backend(),
                    old(self).pinnable(),
                    size as nat,
                    old_capacity,
                    capacity,
                ),
    {
        let old_capacity = self.prepare_realloc(size as u128);
        self.x.resize(size, elem);
        let capacity = self.check_ptr(old_capacity);
        proof {
            assert(pin_rule(
                old(self).pinned(),
                self.pinned(),
                old(self).backend(),
                old(self).pinnable(),
                size as nat,
                old_capacity,
                capacity,
            ));
        }
    }
}

impl<T: Default + Clone> PinnedVec<T> {
    /// Empties the buffer for its next use.
    pub fn reset(&mut self)
        ensures
            final(self)@ == Seq::<T>::empty(),
            final(self).pinnable() == old(self).pinnable(),
            final(self).backend() == old(self).backend(),
            exists|old_capacity: usize, capacity: usize| #[trigger]
                pin_rule(
                    old(self).pinned(),
                    final(self).pinned(),
                    old(self).backend(),
                    old(self).pinnable(),
                    0,
                    old_capacity,
                    capacity,
                ),
    {
        self.resize(0, T::default());
        proof {
            assert(final(self)@ =~= Seq::<T>::empty());
        }
    }

    /// Readies the buffer for a use of `size_hint` elements: marks it
    /// pinnable and makes it `size_hint` elements long.
    pub fn warm(&mut self, size_hint: usize)
        ensures
            final(self)@.len() == size_hint,
            size_hint <= old(self)@.len() ==> final(self)@ == old(self)@.subrange(
                0,
                size_hint as int,
            ),
            size_hint > old(self)@.len() ==> final(self)@.subrange(0, old(self)@.len() as int)
                == old(self)@,
            final(self).pinnable(),
            final(self).backend() == old(self).backend(),
            exists|old_capacity: usize, capacity: usize| #[trigger]
                pin_rule(
                    old(self).pinned(),
                    final(self).pinned(),
                    old(self).backend(),
                    true,
                    size_hint as nat,
                    old_capacity,
                    capacity,
                ),
    {
        self.set_pinnable();
        self.resize(size_hint, T::default());
    }
}

impl<T> core::ops::Index<usize> for PinnedVec<T> {
    type Output = T;

    fn index(&self, index: usize) -> (item: &T)
        ensures
            *item == self@[index as int],
    {
        &self.x[index]
    }
}

impl<T> vstd::std_specs::core::IndexSpecImpl<usize> for PinnedVec<T> {
    open spec fn index_req(&self, index: &usize) -> bool {
        *index < self@.len()
    }
}

impl<T: Clone> Clone for PinnedVec<T> {
    /// A buffer with clones of the elements and with the same flags.
    fn clone(&self) -> (copy: Self)
        ensures
            copy@.len() == self@.len(),
            forall|i: int| 0 <= i < self@.len() ==> cloned::<T>(self@[i], #[trigger] copy@[i]),
            copy.pinned() == self.pinned(),
            copy.pinnable() == self.pinnable(),
            copy.backend() == self.backend(),
    {
        PinnedVec {
            x: self.x.clone(),
            pinned: self.pinned,
            pinnable: self.pinnable,
            backend: self.backend,
        }
    }
}

impl<T> Default for PinnedVec<T> {
    fn default() -> (buffer: Self)
        ensures
            buffer@ == Seq::<T>::empty(),
            !buffer.pinned(),
            !buffer.pinnable(),
            !buffer.backend(),
    {
        PinnedVec::new()
    }
}

} // verus!
