use vstd::prelude::*;
use vstd::std_specs::cmp::PartialEqSpec;

verus! {

/// A growable, densely packed array of plain values that exclusively owns its storage.
///
/// Elements are handed out by value; the reference accessors give access into the
/// backing storage, and borrowing keeps them from outliving the next mutation.
pub struct Array<T> {
    data: Vec<T>,
}

impl<T> View for Array<T> {
    type V = Seq<T>;

    /// The elements, in index order.
    closed spec fn view(&self) -> Seq<T> {
        self.data@
    }
}

impl<T: Copy> Array<T> {
    /// Takes ownership of storage that was filled elsewhere.
    pub fn from_raw(data: Vec<T>) -> (r: Array<T>)
        ensures
            r@ == data@,
    {
        Array { data }
    }

    /// An empty array. Storage is only taken once elements arrive, so this
    /// always succeeds.
    pub fn new() -> (r: Option<Array<T>>)
        ensures
            r is Some,
            r matches Some(a) && a@ == Seq::<T>::empty(),
    {
        Some(Array { data: Vec::new() })
    }

    /// Number of elements.
    pub fn len(&self) -> (r: usize)
        ensures
            r == self@.len(),
    {
        self.data.len()
    }

    /// Makes room for at least `capacity` elements; the contents are unchanged.
    pub fn reserve(&mut self, capacity: i32)
        ensures
            final(self)@ == old(self)@,
    {
        let n = self.data.len();
        if capacity > 0 && capacity as usize > n {
            self.data.reserve(capacity as usize - n);
        }
    }

    /// Keeps the first `size` elements and drops the rest.
    pub fn truncate(&mut self, size: i32)
        requires
            0 <= size <= old(self)@.len(),
        ensures
            final(self)@ == old(self)@.subrange(0, size as int),
    {
        self.data.truncate(size as usize);
    }

    /// Appends `value` at the end.
    pub fn push(&mut self, value: T)
        ensures
            final(self)@ == old(self)@.push(value),
    {
        self.data.push(value);
    }

    /// The element at `index`, which the caller has checked to be in range.
    pub fn get_value_unchecked(&self, index: usize) -> (r: T)
        requires
            index < self@.len(),
        ensures
            r == self@[index as int],
    {
        self.data[index]
    }

    /// A copy of the element at `index`, or `None` when `index` is out of range.
    pub fn get_value(&self, index: usize) -> (r: Option<T>)
        ensures
            index < self@.len() ==> r == Some(self@[index as int]),
            index >= self@.len() ==> r is None,
    {
        if index >= self.len() {
            return None;
        }
        Some(self.get_value_unchecked(index))
    }

    /// A reference to the element at `index`, which the caller has checked to be in range.
    pub fn get_unchecked(&self, index: usize) -> (r: &T)
        requires
            index < self@.len(),
        ensures
            *r == self@[index as int],
    {
        &self.data[index]
    }

    /// A reference to the element at `index`, or `None` when `index` is out of range.
    pub fn get(&self, index: usize) -> (r: Option<&T>)
        ensures
            index < self@.len() ==> r == Some(&self@[index as int]),
            index >= self@.len() ==> r is None,
    {
        if index >= self.len() {
            return None;
        }
        Some(self.get_unchecked(index))
    }

    /// A mutable reference to the element at `index`, which the caller has checked
    /// to be in range. What is written through it becomes that element.
    pub fn get_mut_unchecked(&mut self, index: usize) -> (r: &mut T)
        requires
            index < old(self)@.len(),
        ensures
            *r == old(self)@[index as int],
            final(self)@ == old(self)@.update(index as int, *final(r)),
    {
        &mut self.data[index]
    }

    /// A mutable reference to the element at `index`, or `None`, with nothing
    /// changed, when `index` is out of range.
    pub fn get_mut(&mut self, index: usize) -> (r: Option<&mut T>)
        ensures
            index < old(self)@.len() <==> r is Some,
            r matches Some(e) ==> *e == old(self)@[index as int]
                && final(self)@ == old(self)@.update(index as int, *final(e)),
            r is None ==> final(self)@ == old(self)@,
    {
        if index >= self.len() {
            return None;
        }
        Some(self.get_mut_unchecked(index))
    }

    /// Removes the element at `index` and returns it; the elements after it move
    /// down by one, in order. `None`, with nothing changed, when `index` is out of range.
    pub fn remove(&mut self, index: usize) -> (r: Option<T>)
        ensures
            index < old(self)@.len() ==> r == Some(old(self)@[index as int])
                && final(self)@ == old(self)@.remove(index as int),
            index >= old(self)@.len() ==> r is None && final(self)@ == old(self)@,
    {
        if index >= self.len() {
            return None;
        }
        Some(self.data.remove(index))
    }

    /// Removes the element at `index` and returns it; the last element takes its
    /// place. `None`, with nothing changed, when `index` is out of range.
    pub fn swap_remove(&mut self, index: usize) -> (r: Option<T>)
        ensures
            index < old(self)@.len() ==> r == Some(old(self)@[index as int])
                && final(self)@ == swap_removed(old(self)@, index as int),
            index >= old(self)@.len() ==> r is None && final(self)@ == old(self)@,
    {
        if index >= self.len() {
            return None;
        }
        Some(self.data.swap_remove(index))
    }

    /// Inserts `value` before the element at `index`. When `index` is not the index
    /// of an element, nothing changes and `value` is handed back.
    pub fn insert(&mut self, index: usize, value: T) -> (r: Result<(), T>)
        ensures
            index < old(self)@.len() ==> r is Ok
                && final(self)@ == old(self)@.insert(index as int, value),
            index >= old(self)@.len() ==> r == Err::<(), T>(value) && final(self)@ == old(self)@,
    {
        if index >= self.len() {
            return Err(value);
        }
        self.data.insert(index, value);
        Ok(())
    }

    /// Overwrites the element at `index` with `value`. When `index` is out of range,
    /// nothing changes and `value` is handed back.
    pub fn set(&mut self, index: usize, value: T) -> (r: Result<(), T>)
        ensures
            index < old(self)@.len() ==> r is Ok
                && final(self)@ == old(self)@.update(index as int, value),
            index >= old(self)@.len() ==> r == Err::<(), T>(value) && final(self)@ == old(self)@,
    {
        if index >= self.len() {
            return Err(value);
        }
        self.data.set(index, value);
        Ok(())
    }

    /// Removes every element.
    pub fn clear(&mut self)
        ensures
            final(self)@ == Seq::<T>::empty(),
    {
        self.data.clear();
    }
}

impl<T: Copy + PartialEq> Array<T> {
    /// The index of the first element equal to `value`, or `None` when there is none.
    pub fn find(&self, value: &T) -> (r: Option<usize>)
        ensures
            T::obeys_eq_spec() ==> match r {
                Some(i) => i < self@.len() && self@[i as int].eq_spec(value)
                    && forall|j: int| 0 <= j < i ==> !self@[j].eq_spec(value),
                None => forall|j: int| 0 <= j < self@.len() ==> !self@[j].eq_spec(value),
            },
    {
        let n = self.data.len();
        let mut i: usize = 0;
        while i < n
            invariant
                n == self@.len(),
                i <= n,
                T::obeys_eq_spec() ==> forall|j: int| 0 <= j < i ==> !self@[j].eq_spec(value),
            decreases n - i,
        {
            if self.data[i] == *value {
                return Some(i);
            }
            i = i + 1;
        }
        None
    }

    /// Whether some element equals `value`.
    pub fn contains(&self, value: &T) -> (r: bool)
        ensures
            T::obeys_eq_spec() ==> (r <==> exists|j: int| 0 <= j < self@.len() && self@[j].eq_spec(value)),
    {
        self.find(value).is_some()
    }
}

impl<T: Copy> Clone for Array<T> {
    /// An independent copy with its own storage and the same elements.
    fn clone(&self) -> (r: Array<T>)
        ensures
            r@ == self@,
    {
        let mut data: Vec<T> = Vec::with_capacity(self.data.len());
        let mut i: usize = 0;
        while i < self.data.len()
            invariant
                i <= self@.len(),
                data@ == self@.subrange(0, i as int),
            decreases self@.len() - i,
        {
            data.push(self.data[i]);
            i = i + 1;
        }
        Array { data }
    }
}

impl<T: Copy> Array<T> {
    /// A walk over the elements in index order, starting at the first.
    pub fn iter(&self) -> (r: Iter<'_, T>)
        ensures
            r.elements() == self@,
            r.position() == 0,
    {
        Iter { data: self, current: 0 }
    }
}

/// A walk over the elements of an [`Array`], which cannot change while it is borrowed.
pub struct Iter<'a, T> {
    data: &'a Array<T>,
    current: usize,
}

impl<'a, T: Copy> Iter<'a, T> {
    /// The elements walked over.
    pub closed spec fn elements(&self) -> Seq<T> {
        self.data@
    }

    /// The index of the next element to hand out.
    pub closed spec fn position(&self) -> int {
        self.current as int
    }

    /// The next element, or `None` once every element has been handed out.
    pub fn next(&mut self) -> (r: Option<&'a T>)
        ensures
            final(self).elements() == old(self).elements(),
            old(self).position() < old(self).elements().len() ==> r == Some(
                &old(self).elements()[old(self).position()],
            ) && final(self).position() == old(self).position() + 1,
            old(self).position() >= old(self).elements().len() ==> r is None
                && final(self).position() == old(self).position(),
    {
        if self.current >= self.data.len() {
            return None;
        }
        let out = self.data.get_unchecked(self.current);
        self.current = self.current + 1;
        Some(out)
    }
}

/// The sequence left by a swap-remove at `i`: the last element moves into slot `i`.
pub open spec fn swap_removed<T>(s: Seq<T>, i: int) -> Seq<T> {
    s.update(i, s.last()).drop_last()
}

} // verus!

verus! {

/// The contents of an array that held `start` after pushing each of `values` in turn.
pub open spec fn after_pushes<T>(start: Seq<T>, values: Seq<T>) -> Seq<T>
    decreases values.len(),
{
    if values.len() == 0 {
        start
    } else {
        after_pushes(start, values.drop_last()).push(values.last())
    }
}

/// Pushing values one by one onto an empty array gives an array with one element per
/// push, and reading back at each index gives the value pushed there.
pub proof fn lemma_pushes_round_trip<T>(values: Seq<T>)
    ensures
        after_pushes(Seq::empty(), values).len() == values.len(),
        forall|i: int|
            0 <= i < values.len() ==> #[trigger] after_pushes(Seq::empty(), values)[i] == values[i],
    decreases values.len(),
{
    if values.len() > 0 {
        lemma_pushes_round_trip(values.drop_last());
        assert(after_pushes(Seq::empty(), values.drop_last()) =~= values.drop_last());
        assert(values.drop_last().push(values.last()) =~= values);
    }
}

/// Removing the element at `i` shortens the array by one and keeps every other
/// element in its relative order: those before `i` stay put, those after move down by one.
pub proof fn lemma_remove_keeps_order<T>(s: Seq<T>, i: int)
    requires
        0 <= i < s.len(),
    ensures
        s.remove(i).len() == s.len() - 1,
        forall|j: int| 0 <= j < i ==> #[trigger] s.remove(i)[j] == s[j],
        forall|j: int| i <= j < s.len() - 1 ==> #[trigger] s.remove(i)[j] == s[j + 1],
{
}

/// Swap-removing the element at `i` shortens the array by exactly one and keeps every
/// other element: together with the removed `s[i]` the same elements are there as before.
pub proof fn lemma_swap_remove_keeps_elements<T>(s: Seq<T>, i: int)
    requires
        0 <= i < s.len(),
    ensures
        swap_removed(s, i).len() == s.len() - 1,
        swap_removed(s, i).to_multiset() == s.to_multiset().remove(s[i]),
        swap_removed(s, i).to_multiset().insert(s[i]) == s.to_multiset(),
{
    broadcast use vstd::seq_lib::group_to_multiset_ensures;
    let n = s.len() - 1;
    let t = swap_removed(s, i);
    if i == n {
        assert(t =~= s.remove(i));
    } else {
        let u = s.update(i, s.last());
        assert(u.remove(i) =~= s.remove(i));
        assert(t.push(u.last()) =~= u);
        assert(t.to_multiset() =~= u.to_multiset().remove(s.last()));
    }
    assert(s.contains(s[i]));
    assert(t.to_multiset().insert(s[i]) =~= s.to_multiset());
}

} // verus!
