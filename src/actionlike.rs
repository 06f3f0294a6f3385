//! The capability every action set provides: a fixed, order-stable
//! enumeration of its variants.

use vstd::prelude::*;

verus! {

/// Positions identify the actions of `A` one for one: every action sits below
/// the count and is the action at its own position, and every position below
/// the count holds an action that sits there.
///
/// In particular two different actions never share a position.
pub open spec fn enumerates<A: Actionlike>() -> bool {
    &&& forall|a: A|
        #![trigger a.spec_index()]
        a.spec_index() < A::spec_count() && A::spec_from_index(a.spec_index()) == a
    &&& forall|i: nat|
        #![trigger A::spec_from_index(i)]
        i < A::spec_count() ==> A::spec_from_index(i).spec_index() == i
}

/// Two actions at one position are the same action.
pub proof fn lemma_position_identifies<A: Actionlike>(a: A, b: A)
    requires
        enumerates::<A>(),
        a.spec_index() == b.spec_index(),
    ensures
        a == b,
{
    assert(A::spec_from_index(a.spec_index()) == a);
    assert(A::spec_from_index(b.spec_index()) == b);
}

/// A finite set of actions, each with a stable position in `0..count()`.
///
/// An implementation describes its enumeration through the three spec
/// functions, and proves in [`Actionlike::count`] that positions identify its
/// actions one for one (what [`enumerates`] states). The spec functions carry default
/// bodies only so that an implementation outside the verifier can leave them
/// out; one that the verifier checks overrides them, since `count` cannot be
/// proved otherwise.
pub trait Actionlike: Sized {
    /// How many actions the set holds.
    open spec fn spec_count() -> nat {
        arbitrary()
    }

    /// The position of this action in the enumeration.
    open spec fn spec_index(&self) -> nat {
        arbitrary()
    }

    /// The action at position `i`; meaningful for `i < spec_count()`.
    open spec fn spec_from_index(i: nat) -> Self {
        arbitrary()
    }

    /// How many actions the set holds.
    fn count() -> (r: usize)
        ensures
            r == Self::spec_count(),
            forall|a: Self|
                #![trigger a.spec_index()]
                a.spec_index() < Self::spec_count() && Self::spec_from_index(a.spec_index()) == a,
            forall|i: nat|
                #![trigger Self::spec_from_index(i)]
                i < Self::spec_count() ==> Self::spec_from_index(i).spec_index() == i,
    ;

    /// The position of this action in the enumeration.
    fn index(&self) -> (r: usize)
        ensures
            r == self.spec_index(),
            r < Self::spec_count(),
    ;

    /// The action at position `i`.
    fn from_index(i: usize) -> (r: Self)
        requires
            i < Self::spec_count(),
        ensures
            r == Self::spec_from_index(i as nat),
            r.spec_index() == i,
    ;
}

} // verus!
