//! The deserialization probe.
use crate::capability::{Absent, Present};
use vstd::prelude::*;

verus! {

/// The capability to read a value of type `T` from a source of type `D`, which
/// may be there or not. An attempt to read ends in `Ok` with the value, or in
/// `Err` with an `E`.
///
/// In the clauses below `source` ranges over borrows of the source: `*source`
/// is what the source holds when the borrow starts, `*final(source)` what it
/// holds when the borrow ends.
pub trait MaybeDe<T, D, E>: Sized {
    /// True if the capability is there. It belongs to the type, so every use of
    /// the type sees the same answer.
    const IMPL_DESERIALIZE: bool;

    /// Whether the capability's own logic accepts the source that `source`
    /// borrows.
    spec fn can_deserialize(&self, source: &mut D) -> bool;

    /// Whether the capability's own logic, run on the source that `source`
    /// borrows, can end in `outcome`. What it took from the source is the
    /// difference between what `source` holds and what it holds in the end.
    spec fn deserialized(&self, source: &mut D, outcome: Result<T, E>) -> bool;

    /// Tries to read a `T` from `deserializer`.
    ///
    /// Where the capability is there, its own logic runs once, on the source as
    /// it was handed in; `deserializer` is left as that run left it and the
    /// result is `Some` of what the run returned. Where it is not there, the
    /// result is `None` and `deserializer` is as it was: nothing was read.
    fn maybe_deserialize(self, deserializer: &mut D) -> (out: Option<Result<T, E>>)
        requires
            Self::IMPL_DESERIALIZE ==> forall|source: &mut D|
                *source == *old(deserializer) ==> #[trigger] self.can_deserialize(source),
        ensures
            Self::IMPL_DESERIALIZE ==> (out matches Some(outcome) && exists|source: &mut D|
                *source == *old(deserializer) && *final(source) == *final(deserializer)
                    && #[trigger] self.deserialized(source, outcome)),
            !Self::IMPL_DESERIALIZE ==> out is None
                && *final(deserializer) == *old(deserializer),
    ;
}

/// The fallback: nothing is read, whatever the source.
impl<T, D, E> MaybeDe<T, D, E> for Absent {
    const IMPL_DESERIALIZE: bool = false;

    open spec fn can_deserialize(&self, source: &mut D) -> bool {
        true
    }

    open spec fn deserialized(&self, source: &mut D, outcome: Result<T, E>) -> bool {
        false
    }

    fn maybe_deserialize(self, _deserializer: &mut D) -> (out: Option<Result<T, E>>) {
        None
    }
}

/// The capability itself: the function in the field does the reading.
impl<T, D, E, F: FnOnce(&mut D) -> Result<T, E>> MaybeDe<T, D, E> for Present<F> {
    const IMPL_DESERIALIZE: bool = true;

    open spec fn can_deserialize(&self, source: &mut D) -> bool {
        call_requires(self.0, (source,))
    }

    open spec fn deserialized(&self, source: &mut D, outcome: Result<T, E>) -> bool {
        call_ensures(self.0, (source,), outcome)
    }

    fn maybe_deserialize(self, deserializer: &mut D) -> (out: Option<Result<T, E>>) {
        proof {
            assert forall|source: &mut D| *source == *deserializer implies call_requires(
                self.0,
                (source,),
            ) by {
                assert(self.can_deserialize(source));
            }
        }
        let outcome = (self.0)(deserializer);
        proof {
            let source = choose|source: &mut D|
                *source == *old(deserializer) && *final(source) == *deserializer && call_ensures(
                    self.0,
                    (source,),
                    outcome,
                );
            assert(self.deserialized(source, outcome));
        }
        Some(outcome)
    }
}

/// A capability that is there says so: its flag is set, whatever function it
/// carries.
pub proof fn lemma_present_deserializes<T, D, E, F: FnOnce(&mut D) -> Result<T, E>>()
    ensures
        <Present<F> as MaybeDe<T, D, E>>::IMPL_DESERIALIZE,
{
}

/// The fallback says so too: its flag is clear for every value type and source.
pub proof fn lemma_absent_deserializes_nothing<T, D, E>()
    ensures
        !<Absent as MaybeDe<T, D, E>>::IMPL_DESERIALIZE,
{
}

} // verus!
