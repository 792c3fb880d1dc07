use vstd::prelude::*;

verus! {

/// The elements left after removing elements from the end of `s` until at most `len` remain.
pub open spec fn shrunk<T>(s: Seq<T>, len: nat) -> Seq<T> {
    if len < s.len() {
        s.subrange(0, len as int)
    } else {
        s
    }
}

/// The length that a collection of length `cur` has after being extended to `len`.
pub open spec fn extended_len(cur: nat, len: nat) -> nat {
    if cur < len {
        len
    } else {
        cur
    }
}

/// What removing the last element of `s` gives: that element, if any, and what remains.
pub open spec fn popped<T>(s: Seq<T>) -> (Option<T>, Seq<T>) {
    if s.len() == 0 {
        (None, s)
    } else {
        (Some(s.last()), s.drop_last())
    }
}

/// Popping right after pushing `a` and then `b` gives back `b`, and popping again gives back
/// `a`, leaving the elements that were there before.
pub proof fn lemma_pop_after_push<T>(s: Seq<T>, a: T, b: T)
    ensures
        popped(s.push(a).push(b)) == (Some(b), s.push(a)),
        popped(s.push(a)) == (Some(a), s),
{
    assert(s.push(a).push(b).drop_last() =~= s.push(a));
    assert(s.push(a).drop_last() =~= s);
}

/// Extending a collection of length `cur` to `len` leaves it with `len` elements when it held
/// fewer, and with its length unchanged otherwise.
pub proof fn lemma_extended_len(cur: nat, len: nat)
    ensures
        cur < len ==> extended_len(cur, len) == len,
        cur >= len ==> extended_len(cur, len) == cur,
{
}

/// Shrinking a collection of length at least `len` to `len` leaves exactly `len` elements, the
/// first ones; shrinking a shorter one leaves it as it is.
pub proof fn lemma_shrunk_len<T>(s: Seq<T>, len: nat)
    ensures
        len <= s.len() ==> shrunk(s, len).len() == len && shrunk(s, len) == s.subrange(
            0,
            len as int,
        ),
        len > s.len() ==> shrunk(s, len) == s,
{
    if len == s.len() {
        assert(s.subrange(0, len as int) =~= s);
    }
}

/// A linear collection whose number of elements is known at every point in time.
///
/// Its elements are modelled by `elems`, first to last; `push` and `pop` act on the end.
pub trait LinearSizedCollection<T> {
    /// The elements of the collection, first to last.
    spec fn elems(&self) -> Seq<T>;

    /// The number of elements in the collection.
    fn len(&self) -> (r: usize)
        ensures
            r == self.elems().len(),
    ;

    /// Appends `val` at the end of the collection.
    fn push(&mut self, val: T)
        requires
            old(self).elems().len() < usize::MAX,
        ensures
            final(self).elems() == old(self).elems().push(val),
    ;

    /// Removes the last element and returns it, or returns `None` when the collection is empty.
    fn pop(&mut self) -> (r: Option<T>)
        ensures
            (r, final(self).elems()) == popped(old(self).elems()),
    ;

    /// Removes elements from the end until at most `len` remain.
    fn shrink_to(&mut self, len: usize)
        ensures
            final(self).elems() == shrunk(old(self).elems(), len as nat),
    {
        while self.len() > len
            invariant
                self.elems() == shrunk(old(self).elems(), self.elems().len()),
                len < old(self).elems().len() ==> len <= self.elems().len(),
                len >= old(self).elems().len() ==> self.elems() == old(self).elems(),
                self.elems().len() <= old(self).elems().len(),
            decreases self.elems().len(),
        {
            self.pop();
        }
    }

    /// Extends the collection to `len` elements, each new one a clone of `val`.
    /// Does nothing when the collection already holds `len` elements or more.
    fn extend_to(&mut self, len: usize, val: T)
        where
            T: Clone,
            Self: Sized,
        ensures
            final(self).elems().len() == extended_len(old(self).elems().len(), len as nat),
            final(self).elems().subrange(0, old(self).elems().len() as int) == old(self).elems(),
            forall|i: int|
                old(self).elems().len() <= i < final(self).elems().len() ==> cloned(
                    val,
                    #[trigger] final(self).elems()[i],
                ),
    {
        let source = &val;
        let copy = || -> (r: T)
            ensures
                cloned(*source, r),
            { source.clone() };
        self.extend_to_with(len, copy);
    }

    /// Extends the collection to `len` elements, calling `fill` once for each new element, in
    /// order. Does nothing when the collection already holds `len` elements or more.
    fn extend_to_with<F: FnMut() -> T>(&mut self, len: usize, mut fill: F)
        where
            Self: Sized,
        requires
            forall|| call_requires(fill, ()),
        ensures
            final(self).elems().len() == extended_len(old(self).elems().len(), len as nat),
            final(self).elems().subrange(0, old(self).elems().len() as int) == old(self).elems(),
            forall|i: int|
                old(self).elems().len() <= i < final(self).elems().len() ==> call_ensures(
                    fill,
                    (),
                    #[trigger] final(self).elems()[i],
                ),
    {
        let ghost given = fill;
        let cur = self.len();
        self.reserve(len.saturating_sub(cur));
        while self.len() < len
            invariant
                fill == given,
                forall|| call_requires(fill, ()),
                self.elems().len() == extended_len(old(self).elems().len(), self.elems().len()),
                self.elems().len() <= extended_len(old(self).elems().len(), len as nat),
                self.elems().subrange(0, old(self).elems().len() as int) == old(self).elems(),
                forall|i: int|
                    old(self).elems().len() <= i < self.elems().len() ==> call_ensures(
                        fill,
                        (),
                        #[trigger] self.elems()[i],
                    ),
            decreases len - self.elems().len(),
        {
            let v = fill();
            self.push(v);
        }
    }

    /// Hints that `additional` more elements are about to be pushed. Leaves the elements as
    /// they are.
    fn reserve(&mut self, additional: usize)
        ensures
            final(self).elems() == old(self).elems(),
    ;

    /// Whether the collection holds no element.
    fn is_empty(&self) -> (r: bool)
        ensures
            r == (self.elems().len() == 0),
    {
        self.len() == 0
    }
}

/// Lends a mutable view into the elements of a collection, through which the elements can be
/// changed but their number cannot.
pub trait ViewMut<'a, T>: LinearSizedCollection<T> {
    /// The view; it changes elements in place and never changes how many there are.
    type MutableView: 'a;

    /// Lends the view. Once the view is given back the collection holds as many elements as
    /// before.
    fn view_mut(&'a mut self) -> (r: Self::MutableView)
        ensures
            final(self).elems().len() == old(self).elems().len(),
    ;
}

} // verus!
