use std::collections::VecDeque;
use vstd::prelude::*;

use crate::linear::{LinearSizedCollection, ViewMut};

verus! {

impl<T> LinearSizedCollection<T> for Vec<T> {
    open spec fn elems(&self) -> Seq<T> {
        self@
    }

    fn len(&self) -> (r: usize) {
        Vec::len(self)
    }

    fn push(&mut self, val: T) {
        Vec::push(self, val)
    }

    fn pop(&mut self) -> (r: Option<T>) {
        Vec::pop(self)
    }

    fn shrink_to(&mut self, len: usize) {
        self.truncate(len)
    }

    fn reserve(&mut self, additional: usize) {
        Vec::reserve(self, additional)
    }
}

/// Relies on `Vec::as_mut_slice`: it lends the vector's elements as a slice, through which they
/// change; a slice cannot grow or shrink, so the vector keeps its length.
#[verifier::external_body]
fn slice_of<T>(v: &mut Vec<T>) -> (r: &mut [T])
    ensures
        r@ == old(v)@,
        final(v)@ == final(r)@,
        final(r)@.len() == r@.len(),
{
    v.as_mut_slice()
}

impl<'a, T: 'a> ViewMut<'a, T> for Vec<T> {
    type MutableView = &'a mut [T];

    fn view_mut(&'a mut self) -> (r: &'a mut [T]) {
        slice_of(self)
    }
}

impl<T> LinearSizedCollection<T> for VecDeque<T> {
    open spec fn elems(&self) -> Seq<T> {
        self@
    }

    fn len(&self) -> (r: usize) {
        VecDeque::len(self)
    }

    fn push(&mut self, val: T) {
        self.push_back(val)
    }

    fn pop(&mut self) -> (r: Option<T>) {
        self.pop_back()
    }

    fn shrink_to(&mut self, len: usize) {
        self.truncate(len)
    }

    fn reserve(&mut self, additional: usize) {
        VecDeque::reserve(self, additional)
    }
}

/// Relies on `VecDeque::make_contiguous`: it moves the elements into one contiguous block, in
/// their order, and lends that block as a slice, through which the deque's elements change; a
/// slice cannot grow or shrink, so the deque keeps its length.
#[verifier::external_body]
fn contiguous<T>(d: &mut VecDeque<T>) -> (r: &mut [T])
    ensures
        r@ == old(d)@,
        final(d)@ == final(r)@,
        final(r)@.len() == r@.len(),
{
    d.make_contiguous()
}

impl<'a, T: 'a> ViewMut<'a, T> for VecDeque<T> {
    type MutableView = &'a mut [T];

    fn view_mut(&'a mut self) -> (r: &'a mut [T]) {
        contiguous(self)
    }
}

} // verus!
