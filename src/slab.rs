use vstd::prelude::*;

verus! {

/// A handle to an element of a `Slab`.
pub struct Id<T> {
    index: usize,
    _phantom: std::marker::PhantomData<T>,
}

impl<T> Clone for Id<T> {
    fn clone(&self) -> (r: Self)
        ensures
            r.spec_index() == self.spec_index(),
    {
        Id { index: self.index, _phantom: std::marker::PhantomData }
    }
}

impl<T> Copy for Id<T> {}

impl<T> Id<T> {
    /// The position the handle stands for.
    pub closed spec fn spec_index(&self) -> usize {
        self.index
    }

    /// The position the handle stands for.
    pub fn index(&self) -> (r: usize)
        ensures
            r == self.spec_index(),
    {
        self.index
    }

    /// The handle of the element at `index`.
    pub fn new(index: usize) -> (r: Id<T>)
        ensures
            r.spec_index() == index,
    {
        Id { index, _phantom: std::marker::PhantomData }
    }
}

/// An append-only store; each inserted element gets the handle of its position.
pub struct Slab<T> {
    data: Vec<T>,
}

impl<T> View for Slab<T> {
    type V = Seq<T>;

    closed spec fn view(&self) -> Seq<T> {
        self.data@
    }
}

impl<T> Slab<T> {
    /// An empty slab.
    pub fn new() -> (r: Slab<T>)
        ensures
            r@ == Seq::<T>::empty(),
    {
        Slab { data: Vec::new() }
    }

    /// Stores `value` and returns its handle.
    pub fn insert(&mut self, value: T) -> (r: Id<T>)
        ensures
            r.spec_index() == old(self)@.len(),
            final(self)@ == old(self)@.push(value),
    {
        let index = self.data.len();
        self.data.push(value);
        Id::new(index)
    }

    /// The element behind a handle, if there is one.
    pub fn get(&self, id: Id<T>) -> (r: Option<&T>)
        ensures
            id.spec_index() < self@.len() ==> r == Some(&self@[id.spec_index() as int]),
            id.spec_index() >= self@.len() ==> r is None,
    {
        if id.index < self.data.len() {
            Some(&self.data[id.index])
        } else {
            None
        }
    }

    /// The elements in insertion order, to iterate over.
    pub fn iter(&self) -> (r: &[T])
        ensures
            r@ == self@,
    {
        self.data.as_slice()
    }
}

} // verus!
