//! Linear collections whose length is held in a closed range `[MIN, MAX]`.
//!
//! [`SizeRestricted`] wraps any collection that implements [`LinearSizedCollection`] and keeps
//! its length between the two bounds of its type: constructors check or fit the length, and
//! every operation either refuses to leave the range or brings the collection back into it.

mod collections;
pub mod linear;
pub mod restricted;

pub use linear::{LinearSizedCollection, ViewMut};
pub use restricted::{ExactSized, NonEmpty, SizeRangeError, SizeRestricted, UNBOUNDED};
