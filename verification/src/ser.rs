//! The serialization probe.
use crate::capability::{Absent, Present};
use vstd::prelude::*;

verus! {

/// The capability to write values of type `T` into a sink of type `S`, which
/// may be there or not. An attempt to write ends in `Ok` with a `V`, or in
/// `Err` with an `E`.
///
/// In the clauses below `sink` ranges over borrows of the sink: `*sink` is what
/// the sink holds when the borrow starts, `*final(sink)` what it holds when the
/// borrow ends.
pub trait MaybeSer<T, S, V, E>: Sized {
    /// True if the capability is there. It belongs to the type, so every use of
    /// the type sees the same answer.
    const IMPL_SERIALIZE: bool;

    /// Whether the capability's own logic accepts `value` together with the
    /// sink that `sink` borrows.
    spec fn can_serialize(&self, value: &T, sink: &mut S) -> bool;

    /// Whether the capability's own logic, run on `value` and on the sink that
    /// `sink` borrows, can end in `outcome`. What it did to the sink is the
    /// difference between what `sink` holds and what it holds in the end.
    spec fn serialized(&self, value: &T, sink: &mut S, outcome: Result<V, E>) -> bool;

    /// Tries to write `value` into `serializer`.
    ///
    /// Where the capability is there, its own logic runs once, on `value` and on
    /// the sink as it was handed in; `serializer` is left as that run left it and
    /// the result is `Some` of what the run returned. Where it is not there, the
    /// result is `None` and `serializer` is as it was.
    fn maybe_serialize(self, value: &T, serializer: &mut S) -> (out: Option<Result<V, E>>)
        requires
            Self::IMPL_SERIALIZE ==> forall|sink: &mut S|
                *sink == *old(serializer) ==> #[trigger] self.can_serialize(value, sink),
        ensures
            Self::IMPL_SERIALIZE ==> (out matches Some(outcome) && exists|sink: &mut S|
                *sink == *old(serializer) && *final(sink) == *final(serializer)
                    && #[trigger] self.serialized(value, sink, outcome)),
            !Self::IMPL_SERIALIZE ==> out is None && *final(serializer) == *old(serializer),
    ;
}

/// The fallback: nothing is written, whatever the value and the sink.
impl<T, S, V, E> MaybeSer<T, S, V, E> for Absent {
    const IMPL_SERIALIZE: bool = false;

    open spec fn can_serialize(&self, value: &T, sink: &mut S) -> bool {
        true
    }

    open spec fn serialized(&self, value: &T, sink: &mut S, outcome: Result<V, E>) -> bool {
        false
    }

    fn maybe_serialize(self, _value: &T, _serializer: &mut S) -> (out: Option<Result<V, E>>) {
        None
    }
}

/// The capability itself: the function in the field does the writing.
impl<T, S, V, E, F: FnOnce(&T, &mut S) -> Result<V, E>> MaybeSer<T, S, V, E> for Present<F> {
    const IMPL_SERIALIZE: bool = true;

    open spec fn can_serialize(&self, value: &T, sink: &mut S) -> bool {
        call_requires(self.0, (value, sink))
    }

    open spec fn serialized(&self, value: &T, sink: &mut S, outcome: Result<V, E>) -> bool {
        call_ensures(self.0, (value, sink), outcome)
    }

    fn maybe_serialize(self, value: &T, serializer: &mut S) -> (out: Option<Result<V, E>>) {
        proof {
            assert forall|sink: &mut S| *sink == *serializer implies call_requires(
                self.0,
                (value, sink),
            ) by {
                assert(self.can_serialize(value, sink));
            }
        }
        let outcome = (self.0)(value, serializer);
        proof {
            let sink = choose|sink: &mut S|
                *sink == *old(serializer) && *final(sink) == *serializer && call_ensures(
                    self.0,
                    (value, sink),
                    outcome,
                );
            assert(self.serialized(value, sink, outcome));
        }
        Some(outcome)
    }
}

/// A capability that is there says so: its flag is set, whatever function it
/// carries.
pub proof fn lemma_present_serializes<T, S, V, E, F: FnOnce(&T, &mut S) -> Result<V, E>>()
    ensures
        <Present<F> as MaybeSer<T, S, V, E>>::IMPL_SERIALIZE,
{
}

/// The fallback says so too: its flag is clear for every value type and sink.
pub proof fn lemma_absent_serializes_nothing<T, S, V, E>()
    ensures
        !<Absent as MaybeSer<T, S, V, E>>::IMPL_SERIALIZE,
{
}

} // verus!
