use core::marker::PhantomData;
use core::ops::Deref;
use vstd::prelude::*;

use crate::linear::{shrunk, LinearSizedCollection, ViewMut};

verus! {

/// The largest length there is: as an upper bound it places no restriction.
pub const UNBOUNDED: usize = usize::MAX;

/// A collection that is never empty.
pub type NonEmpty<T, C> = SizeRestricted<T, C, 1, UNBOUNDED>;

/// A collection with exactly `SIZE` elements, a number that cannot change.
pub type ExactSized<T, C, const SIZE: usize> = SizeRestricted<T, C, SIZE, SIZE>;

/// A length outside the closed range `[MIN, MAX]` of a [`SizeRestricted`] collection.
#[derive(Debug, Clone, Copy, Hash, PartialEq, Eq, Structural, PartialOrd, Ord)]
pub enum SizeRangeError {
    /// The length was larger than `MAX`.
    TooLarge,
    /// The length was smaller than `MIN`.
    TooSmall,
}

/// How a length `len` stands to the closed range `[min, max]`.
pub open spec fn fit_of(len: nat, min: nat, max: nat) -> Result<(), SizeRangeError> {
    if len > max {
        Err(SizeRangeError::TooLarge)
    } else if len < min {
        Err(SizeRangeError::TooSmall)
    } else {
        Ok(())
    }
}

/// A collection fits exactly when its length lies in `[min, max]`; so one whose length lies there
/// is always taken as it is.
pub proof fn lemma_fits_within(len: nat, min: nat, max: nat)
    ensures
        fit_of(len, min, max) is Ok <==> min <= len <= max,
{
}

/// A collection one longer than `max` is too large, and one shorter than `min` by one is too
/// small.
pub proof fn lemma_just_outside(min: nat, max: nat)
    requires
        min <= max,
    ensures
        fit_of(max + 1, min, max) == Err::<(), _>(SizeRangeError::TooLarge),
        min > 0 ==> fit_of((min - 1) as nat, min, max) == Err::<(), _>(SizeRangeError::TooSmall),
{
}

/// What fitting a collection into `[min, max]` with `fill` makes of `before`: one that fits is
/// left as it is, one that is too large is cut down to `min` elements, and one that is too small
/// is extended to `max` elements, each new one a result of `fill`.
pub open spec fn fitted<T, C: LinearSizedCollection<T>, F: FnMut() -> T>(
    before: C,
    after: C,
    min: nat,
    max: nat,
    fill: F,
) -> bool {
    match fit_of(before.elems().len(), min, max) {
        Ok(()) => after == before,
        Err(SizeRangeError::TooLarge) => after.elems() == shrunk(before.elems(), min),
        Err(SizeRangeError::TooSmall) => {
            &&& after.elems().len() == max
            &&& after.elems().subrange(0, before.elems().len() as int) == before.elems()
            &&& forall|i: int|
                before.elems().len() <= i < max ==> call_ensures(
                    fill,
                    (),
                    #[trigger] after.elems()[i],
                )
        },
    }
}

/// Lets `mutator` change `c`.
fn apply<C, M: FnMut(&mut C)>(c: &mut C, mutator: M)
    requires
        forall|x: &mut C| call_requires(mutator, (x,)),
    ensures
        exists|x: &mut C|
            *x == *old(c) && *final(x) == *final(c) && #[trigger] call_ensures(mutator, (x,), ()),
{
    let mut mutator = mutator;
    mutator(c);
}

/// Fitting always lands in `[min, max]`: a collection that fits keeps its length, one that is
/// too large ends with `min` elements and one that is too small with `max`.
pub proof fn lemma_fitted_len<T, C: LinearSizedCollection<T>, F: FnMut() -> T>(
    before: C,
    after: C,
    min: nat,
    max: nat,
    fill: F,
)
    requires
        min <= max,
        fitted(before, after, min, max, fill),
    ensures
        min <= after.elems().len() <= max,
        after.elems().len() == (match fit_of(before.elems().len(), min, max) {
            Ok(()) => before.elems().len(),
            Err(SizeRangeError::TooLarge) => min,
            Err(SizeRangeError::TooSmall) => max,
        }),
{
}

/// A linear collection whose length always lies in the closed range `[MIN, MAX]`.
#[derive(PartialEq, Eq, PartialOrd, Ord, Debug, Hash)]
pub struct SizeRestricted<T, C: LinearSizedCollection<T>, const MIN: usize, const MAX: usize> {
    /// The collection whose length is restricted.
    collection: C,
    _phantom: PhantomData<T>,
}

impl<T, C: LinearSizedCollection<T>, const MIN: usize, const MAX: usize> SizeRestricted<
    T,
    C,
    MIN,
    MAX,
> {
    /// The collection held.
    pub closed spec fn inner_spec(self) -> C {
        self.collection
    }

    /// The elements held, first to last.
    pub open spec fn elems(self) -> Seq<T> {
        self.inner_spec().elems()
    }

    /// The invariant of the type: the length lies in `[MIN, MAX]`. Every constructor establishes
    /// it and every method keeps it.
    pub open spec fn wf(self) -> bool {
        MIN <= self.elems().len() <= MAX
    }

    /// Whether `collection` fits, and if not, which bound it breaks.
    pub fn check_fit(collection: &C) -> (r: Result<(), SizeRangeError>)
        ensures
            r == fit_of(collection.elems().len(), MIN as nat, MAX as nat),
    {
        let len = collection.len();
        if len > MAX {
            Err(SizeRangeError::TooLarge)
        } else if len < MIN {
            Err(SizeRangeError::TooSmall)
        } else {
            Ok(())
        }
    }

    /// Makes `collection` fit: one that is too large is cut down to `MIN` elements, one that is
    /// too small is extended to `MAX` elements by calling `fill` once for each new one.
    pub fn make_fit_with<F: FnMut() -> T>(collection: &mut C, fill: F)
        requires
            forall|| call_requires(fill, ()),
        ensures
            fitted(*old(collection), *final(collection), MIN as nat, MAX as nat, fill),
    {
        match Self::check_fit(collection) {
            Ok(()) => {},
            Err(SizeRangeError::TooLarge) => collection.shrink_to(MIN),
            Err(SizeRangeError::TooSmall) => collection.extend_to_with(MAX, fill),
        }
    }

    /// Wraps `collection`, whose length has to lie in `[MIN, MAX]`.
    pub fn create(collection: C) -> (r: Self)
        requires
            MIN <= collection.elems().len() <= MAX,
        ensures
            r.inner_spec() == collection,
            r.wf(),
    {
        SizeRestricted { collection, _phantom: PhantomData }
    }

    /// Wraps `collection` if its length lies in `[MIN, MAX]`; otherwise hands it back, untouched,
    /// with the bound that it breaks.
    pub fn new(collection: C) -> (r: Result<Self, (SizeRangeError, C)>)
        ensures
            match r {
                Ok(w) => {
                    &&& fit_of(collection.elems().len(), MIN as nat, MAX as nat) is Ok
                    &&& w.inner_spec() == collection
                    &&& w.wf()
                },
                Err((e, c)) => {
                    &&& fit_of(collection.elems().len(), MIN as nat, MAX as nat) == Err::<(), _>(e)
                    &&& c == collection
                },
            },
    {
        match Self::check_fit(&collection) {
            Ok(_) => Ok(Self::create(collection)),
            Err(e) => Err((e, collection)),
        }
    }

    /// Makes `collection` fit as [`make_fit_with`](Self::make_fit_with) does, extending it with
    /// default values.
    pub fn make_fit(collection: &mut C)
        where
            T: Default,
        ensures
            fitted(*old(collection), *final(collection), MIN as nat, MAX as nat, T::default),
    {
        Self::make_fit_with(collection, T::default);
    }

    /// Wraps `collection` after making it fit as [`make_fit`](Self::make_fit) does.
    pub fn new_fit(collection: C) -> (r: Self)
        where
            T: Default,
        requires
            MIN <= MAX,
        ensures
            fitted(collection, r.inner_spec(), MIN as nat, MAX as nat, T::default),
            r.wf(),
    {
        let mut collection = collection;
        Self::make_fit(&mut collection);
        Self::create(collection)
    }

    /// The collection held.
    pub fn inner(&self) -> (r: &C)
        ensures
            *r == self.inner_spec(),
    {
        &self.collection
    }

    /// Hands `mutator` the collection to change as it likes, then makes the result fit as
    /// [`make_fit_with`](Self::make_fit_with) does with `fill`.
    pub fn mutate<F: FnMut() -> T, M: FnMut(&mut C)>(&mut self, fill: F, mutator: M)
        requires
            old(self).wf(),
            forall|| call_requires(fill, ()),
            forall|c: &mut C| call_requires(mutator, (c,)),
        ensures
            final(self).wf(),
            exists|c: &mut C|
                {
                    &&& *c == old(self).inner_spec()
                    &&& #[trigger] call_ensures(mutator, (c,), ())
                    &&& fitted(*final(c), final(self).inner_spec(), MIN as nat, MAX as nat, fill)
                },
    {
        apply(&mut self.collection, mutator);
        Self::make_fit_with(&mut self.collection, fill);
    }

    /// Appends `val` unless the collection already holds `MAX` elements; then `val` is handed
    /// back with [`SizeRangeError::TooLarge`].
    pub fn push(&mut self, val: T) -> (r: Result<(), (SizeRangeError, T)>)
        requires
            old(self).wf(),
        ensures
            final(self).wf(),
            old(self).elems().len() == MAX ==> {
                &&& r == Err::<(), _>((SizeRangeError::TooLarge, val))
                &&& *final(self) == *old(self)
            },
            old(self).elems().len() < MAX ==> {
                &&& r is Ok
                &&& final(self).elems() == old(self).elems().push(val)
            },
    {
        if self.collection.len() == MAX {
            Err((SizeRangeError::TooLarge, val))
        } else {
            self.collection.push(val);
            Ok(())
        }
    }

    /// Removes and returns the last element unless the collection holds only `MIN` elements;
    /// then it returns `None` and leaves the collection as it is.
    pub fn pop(&mut self) -> (r: Option<T>)
        requires
            old(self).wf(),
        ensures
            final(self).wf(),
            old(self).elems().len() == MIN ==> r is None && *final(self) == *old(self),
            old(self).elems().len() > MIN ==> {
                &&& r == Some(old(self).elems().last())
                &&& final(self).elems() == old(self).elems().drop_last()
            },
    {
        if self.collection.len() == MIN {
            None
        } else {
            self.collection.pop()
        }
    }

    /// Gives up the restriction and returns the collection.
    pub fn into_inner(self) -> (r: C)
        ensures
            r == self.inner_spec(),
    {
        self.collection
    }

    /// A view of the elements, as the collection dereferences.
    pub fn view(&self) -> (r: &<C as Deref>::Target)
        where
            C: Deref,
        ensures
            call_ensures(C::deref, (&self.inner_spec(),), r),
    {
        self.collection.deref()
    }

    /// A mutable view of the elements, which changes them in place but never their number.
    pub fn view_mut<'a>(&'a mut self) -> (r: <C as ViewMut<'a, T>>::MutableView)
        where
            C: ViewMut<'a, T>,
        requires
            old(self).wf(),
        ensures
            final(self).wf(),
            final(self).elems().len() == old(self).elems().len(),
    {
        self.collection.view_mut()
    }

    /// A collection of `MIN` default values, starting from the collection's default.
    pub fn default() -> (r: Self)
        where
            C: Default,
            T: Default,
        requires
            MIN <= MAX,
        ensures
            r.wf(),
            r.elems().len() == MIN,
            forall|i: int| 0 <= i < MIN ==> call_ensures(T::default, (), #[trigger] r.elems()[i]),
    {
        let mut collection = C::default();
        collection.shrink_to(0);
        collection.extend_to_with(MIN, T::default);
        Self::create(collection)
    }
}

impl SizeRangeError {
    /// A short description: `Too Large` or `Too Small`.
    pub fn to_string(&self) -> (r: String)
        ensures
            r@ == (match *self {
                SizeRangeError::TooLarge => "Too Large"@,
                SizeRangeError::TooSmall => "Too Small"@,
            }),
    {
        match *self {
            SizeRangeError::TooLarge => String::from_str("Too Large"),
            SizeRangeError::TooSmall => String::from_str("Too Small"),
        }
    }
}

} // verus!
