//! Agreement of two values: what an edit left alone.
//!
//! Text agrees where it reads the same, and a number where it is equal or holds
//! the very same bits.

use crate::geometry::{Handle, Vector2, Vector3};
use crate::scalar::Scalar;
use std::sync::Arc;
use vstd::prelude::*;

verus! {

/// A value that can be compared with an edited copy of itself.
pub trait Agree: Sized {
    spec fn agrees(self, other: Self) -> bool;

    fn agree(&self, other: &Self) -> (result: bool)
        ensures
            result == (*self).agrees(*other),
    ;

    /// A value that nothing touched agrees with itself.
    proof fn agrees_with_itself(&self)
        ensures
            (*self).agrees(*self),
    ;
}

/// Two lists agree where they are equally long and agree item by item.
pub open spec fn lists_agree<T: Agree>(a: Seq<T>, b: Seq<T>) -> bool {
    a.len() == b.len() && forall|i: int| 0 <= i < a.len() ==> (#[trigger] a[i]).agrees(b[i])
}

impl<T: Agree> Agree for Vec<T> {
    open spec fn agrees(self, other: Self) -> bool {
        lists_agree(self@, other@)
    }

    fn agree(&self, other: &Self) -> (result: bool) {
        if self.len() != other.len() {
            return false;
        }
        let mut i: usize = 0;
        while i < self.len()
            invariant
                i <= self.len(),
                self.len() == other.len(),
                forall|j: int| 0 <= j < i ==> (#[trigger] self@[j]).agrees(other@[j]),
            decreases self.len() - i,
        {
            if !self[i].agree(&other[i]) {
                assert(!self@[i as int].agrees(other@[i as int]));
                return false;
            }
            i = i + 1;
        }
        true
    }

    proof fn agrees_with_itself(&self) {
        assert forall|i: int| 0 <= i < self@.len() implies (#[trigger] self@[i]).agrees(self@[i]) by {
            self@[i].agrees_with_itself();
        }
    }
}

impl<T: Agree> Agree for Arc<T> {
    open spec fn agrees(self, other: Self) -> bool {
        (*self).agrees(*other)
    }

    fn agree(&self, other: &Self) -> (result: bool) {
        let a: &T = self;
        let b: &T = other;
        a.agree(b)
    }

    proof fn agrees_with_itself(&self) {
        (**self).agrees_with_itself();
    }
}

impl<T: Agree> Agree for Option<T> {
    open spec fn agrees(self, other: Self) -> bool {
        match (self, other) {
            (Some(a), Some(b)) => a.agrees(b),
            (None, None) => true,
            _ => false,
        }
    }

    fn agree(&self, other: &Self) -> (result: bool) {
        match (self, other) {
            (Some(a), Some(b)) => a.agree(b),
            (None, None) => true,
            _ => false,
        }
    }

    proof fn agrees_with_itself(&self) {
        if let Some(value) = self {
            value.agrees_with_itself();
        }
    }
}

impl Agree for String {
    open spec fn agrees(self, other: Self) -> bool {
        self@ == other@
    }

    fn agree(&self, other: &Self) -> (result: bool) {
        *self == *other
    }

    proof fn agrees_with_itself(&self) {
    }
}

impl Agree for u8 {
    open spec fn agrees(self, other: Self) -> bool {
        self == other
    }

    fn agree(&self, other: &Self) -> (result: bool) {
        *self == *other
    }

    proof fn agrees_with_itself(&self) {
    }
}

impl Agree for Handle {
    open spec fn agrees(self, other: Self) -> bool {
        self == other
    }

    fn agree(&self, other: &Self) -> (result: bool) {
        *self == *other
    }

    proof fn agrees_with_itself(&self) {
    }
}

impl Agree for Scalar {
    open spec fn agrees(self, other: Self) -> bool {
        self.same(other)
    }

    fn agree(&self, other: &Self) -> (result: bool) {
        self.unchanged(*other)
    }

    proof fn agrees_with_itself(&self) {
    }
}

impl Agree for Vector2 {
    open spec fn agrees(self, other: Self) -> bool {
        self.same(other)
    }

    fn agree(&self, other: &Self) -> (result: bool) {
        self.unchanged(*other)
    }

    proof fn agrees_with_itself(&self) {
    }
}

impl Agree for Vector3 {
    open spec fn agrees(self, other: Self) -> bool {
        self.same(other)
    }

    fn agree(&self, other: &Self) -> (result: bool) {
        self.unchanged(*other)
    }

    proof fn agrees_with_itself(&self) {
    }
}

/// Another owner of a shared value.
///
/// `std::sync::Arc::clone`: the new pointer leads to the same value.
#[verifier::external_body]
pub(crate) fn share<T>(value: &Arc<T>) -> (result: Arc<T>)
    ensures
        result == *value,
{
    value.clone()
}

} // verus!
