//! What a caller has measured on two numbers.
use core::cmp::Ordering;
use vstd::prelude::*;

verus! {

/// How a first number stands to a second one.
///
/// `Unordered` is the reading of a pair that has no order, as when one of the
/// two is not a number.
#[derive(Clone, Copy, Debug, PartialEq, Eq, Structural)]
pub enum Comparison {
    Less,
    Equal,
    Greater,
    Unordered,
}

impl Comparison {
    /// The reading of the same two numbers taken the other way round.
    pub open spec fn flipped(self) -> Comparison {
        match self {
            Comparison::Less => Comparison::Greater,
            Comparison::Greater => Comparison::Less,
            Comparison::Equal => Comparison::Equal,
            Comparison::Unordered => Comparison::Unordered,
        }
    }

    /// The reading of two exact numbers.
    pub open spec fn between(first: int, second: int) -> Comparison {
        if first < second {
            Comparison::Less
        } else if first == second {
            Comparison::Equal
        } else {
            Comparison::Greater
        }
    }

    /// Whether the first number is at most the second.
    pub open spec fn is_at_most(self) -> bool {
        self == Comparison::Less || self == Comparison::Equal
    }

    /// Whether the first number is at least the second.
    pub open spec fn is_at_least(self) -> bool {
        self == Comparison::Greater || self == Comparison::Equal
    }

    /// The reading that a partial comparison of two numbers stands for.
    pub open spec fn reading_of(order: Option<Ordering>) -> Comparison {
        match order {
            Some(Ordering::Less) => Comparison::Less,
            Some(Ordering::Equal) => Comparison::Equal,
            Some(Ordering::Greater) => Comparison::Greater,
            None => Comparison::Unordered,
        }
    }

    /// The reading that a partial comparison of two numbers stands for: its
    /// own outcome, and `Unordered` where it has none.
    pub fn of(order: Option<Ordering>) -> (reading: Comparison)
        ensures
            reading == Comparison::reading_of(order),
    {
        match order {
            Some(Ordering::Less) => Comparison::Less,
            Some(Ordering::Equal) => Comparison::Equal,
            Some(Ordering::Greater) => Comparison::Greater,
            None => Comparison::Unordered,
        }
    }
}

} // verus!
