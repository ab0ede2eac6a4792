//! Counts that are never zero.

use vstd::prelude::*;

verus! {

/// A `u32` that is known to be positive.
#[derive(Debug, Clone, Copy, PartialEq, Eq, Structural)]
pub struct NonZeroU32 {
    value: u32,
}

impl View for NonZeroU32 {
    type V = nat;

    closed spec fn view(&self) -> nat {
        self.value as nat
    }
}

impl NonZeroU32 {
    /// What holds of every such count.
    #[verifier::type_invariant]
    pub open spec fn is_positive(self) -> bool {
        self@ > 0
    }

    /// Wrap `value`, or `None` when it is zero.
    pub fn new(value: u32) -> (r: Option<NonZeroU32>)
        ensures
            r is Some <==> value != 0,
            r matches Some(n) ==> n@ == value,
    {
        if value == 0 {
            None
        } else {
            Some(NonZeroU32 { value })
        }
    }

    /// The wrapped value.
    pub fn get(self) -> (r: u32)
        ensures
            r == self@,
            r > 0,
    {
        proof {
            use_type_invariant(&self);
        }
        self.value
    }
}

/// A `usize` that is known to be positive.
#[derive(Debug, Clone, Copy, PartialEq, Eq, Structural)]
pub struct NonZeroUsize {
    value: usize,
}

impl View for NonZeroUsize {
    type V = nat;

    closed spec fn view(&self) -> nat {
        self.value as nat
    }
}

impl NonZeroUsize {
    /// What holds of every such count.
    #[verifier::type_invariant]
    pub open spec fn is_positive(self) -> bool {
        self@ > 0
    }

    /// Wrap `value`, or `None` when it is zero.
    pub fn new(value: usize) -> (r: Option<NonZeroUsize>)
        ensures
            r is Some <==> value != 0,
            r matches Some(n) ==> n@ == value,
    {
        if value == 0 {
            None
        } else {
            Some(NonZeroUsize { value })
        }
    }

    /// The wrapped value.
    pub fn get(self) -> (r: usize)
        ensures
            r == self@,
            r > 0,
    {
        proof {
            use_type_invariant(&self);
        }
        self.value
    }
}

/// A count can be made of every number but zero, and gives the number back.
pub proof fn counts_give_their_number_back(
    value: u32,
    made: Option<NonZeroU32>,
    size: usize,
    made_size: Option<NonZeroUsize>,
)
    requires
        call_ensures(NonZeroU32::new, (value,), made),
        call_ensures(NonZeroUsize::new, (size,), made_size),
    ensures
        made is None <==> value == 0,
        made matches Some(n) ==> forall|r: u32| #[trigger]
            call_ensures(NonZeroU32::get, (n,), r) ==> r == value,
        made_size is None <==> size == 0,
        made_size matches Some(n) ==> forall|r: usize| #[trigger]
            call_ensures(NonZeroUsize::get, (n,), r) ==> r == size,
{
}

} // verus!
