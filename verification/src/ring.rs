//! Privilege levels of external functions and interrupt service routines.

use vstd::prelude::*;

use core::cmp::Ordering;

verus! {

/// Represents a privilege level of an external function or an ISR.
///
/// `User` is the lower level and `Super` the higher one.
#[derive(Debug, Clone, Copy, PartialEq, Eq, Structural, Ord)]
pub enum Ring {
    User,
    Super,
}

/// The position of a level in the privilege order.
pub open spec fn rank(r: Ring) -> int {
    match r {
        Ring::User => 0,
        Ring::Super => 1,
    }
}

/// The order of two levels, by their ranks.
pub open spec fn ring_order(a: Ring, b: Ring) -> Ordering {
    if rank(a) < rank(b) {
        Ordering::Less
    } else if rank(a) == rank(b) {
        Ordering::Equal
    } else {
        Ordering::Greater
    }
}

impl PartialOrd for Ring {
    fn partial_cmp(&self, other: &Self) -> (r: Option<Ordering>) {
        match (self, other) {
            (Ring::User, Ring::Super) => Some(Ordering::Less),
            (Ring::Super, Ring::User) => Some(Ordering::Greater),
            _ => Some(Ordering::Equal),
        }
    }

    fn lt(&self, other: &Self) -> (r: bool) {
        match (self, other) {
            (Ring::Super, _) => false,
            (Ring::User, Ring::Super) => true,
            (Ring::User, Ring::User) => false,
        }
    }

    fn le(&self, other: &Self) -> (r: bool) {
        match (self, other) {
            (Ring::User, _) => true,
            (Ring::Super, Ring::Super) => true,
            (Ring::Super, Ring::User) => false,
        }
    }

    fn gt(&self, other: &Self) -> (r: bool) {
        match (self, other) {
            (Ring::Super, Ring::Super) => false,
            (Ring::Super, _) => true,
            (Ring::User, _) => false,
        }
    }

    fn ge(&self, other: &Self) -> (r: bool) {
        match (self, other) {
            (Ring::Super, _) => true,
            (Ring::User, Ring::User) => true,
            (Ring::User, _) => false,
        }
    }
}

impl vstd::std_specs::cmp::PartialOrdSpecImpl for Ring {
    open spec fn obeys_partial_cmp_spec() -> bool {
        true
    }

    open spec fn partial_cmp_spec(&self, other: &Self) -> Option<Ordering> {
        Some(ring_order(*self, *other))
    }
}

/// The rendering of a level.
pub open spec fn ring_text(r: Ring) -> Seq<char> {
    match r {
        Ring::User => "Ring::(User)"@,
        Ring::Super => "Ring::(Super)"@,
    }
}

impl Ring {
    /// The rendering of this level, such as `Ring::(User)`.
    pub fn to_display_string(&self) -> (r: String)
        ensures
            r@ == ring_text(*self),
    {
        match self {
            Ring::User => String::from_str("Ring::(User)"),
            Ring::Super => String::from_str("Ring::(Super)"),
        }
    }
}

/// The privilege order is a total order with `User` below `Super`: every two
/// levels compare, the comparison is `Equal` exactly when they are the same
/// level, reversing the arguments reverses it, and `Less` is transitive.
pub proof fn lemma_ring_total_order(a: Ring, b: Ring, c: Ring)
    ensures
        (ring_order(a, b) == Ordering::Equal) <==> a == b,
        (ring_order(a, b) == Ordering::Less) <==> (ring_order(b, a) == Ordering::Greater),
        (ring_order(a, b) == Ordering::Less && ring_order(b, c) == Ordering::Less) ==> ring_order(
            a,
            c,
        ) == Ordering::Less,
        ring_order(Ring::User, Ring::Super) == Ordering::Less,
{
}

} // verus!
