//! An optional value that any payload type can be written and read through.
use crate::de::MaybeDe;
use crate::ser::MaybeSer;
use vstd::prelude::*;
use vstd::std_specs::convert::IntoSpecImpl;

verus! {

/// An optional `T` that can be written and read whether or not `T` itself can.
///
/// Writing: a value that is there, of a type that can be written, goes to the
/// sink as itself, with no marker of the option around it. Anything else goes
/// as the null token.
///
/// Reading: a type that can be read is read and wrapped in `Some`; for a type
/// that cannot, the result is `None` and the source is left alone.
pub struct MaybeSerde<T>(pub Option<T>);

/// The wrapper converts to the option it holds, unchanged.
impl<T> Into<Option<T>> for MaybeSerde<T> {
    fn into(self) -> (ret: Option<T>) {
        self.0
    }
}

impl<T> IntoSpecImpl<Option<T>> for MaybeSerde<T> {
    open spec fn obeys_into_spec() -> bool {
        true
    }

    open spec fn into_spec(self) -> Option<T> {
        self.0
    }
}

impl<T> MaybeSerde<T> {
    /// The value that reaches the sink as itself: the wrapped value, if there is
    /// one and its type can be written. `None` stands for the null token.
    pub open spec fn encoded(self, impl_serialize: bool) -> Option<T> {
        if impl_serialize {
            self.0
        } else {
            None
        }
    }

    /// What the wrapper makes of an attempt to read a `T`: a value read is
    /// wrapped in `Some`, a failure is passed on as it is.
    pub open spec fn decoded<E>(outcome: Result<T, E>) -> Result<MaybeSerde<T>, E> {
        match outcome {
            Ok(value) => Ok(MaybeSerde(Some(value))),
            Err(error) => Err(error),
        }
    }

    /// Writes the wrapper into `serializer`.
    ///
    /// Exactly one write is made, on the sink as it was handed in, and its
    /// result is returned: that of `capability`'s own logic on the wrapped
    /// value, if there is a value and the capability is there; that of
    /// `serialize_none`, which writes the null token, in every other case.
    pub fn serialize<S, V, E, C, N>(
        &self,
        serializer: &mut S,
        capability: C,
        serialize_none: N,
    ) -> (out: Result<V, E>) where C: MaybeSer<T, S, V, E>, N: FnOnce(&mut S) -> Result<V, E>
        requires
            self.encoded(C::IMPL_SERIALIZE) matches Some(value) ==> forall|sink: &mut S|
                *sink == *old(serializer) ==> #[trigger] capability.can_serialize(&value, sink),
            self.encoded(C::IMPL_SERIALIZE) is None ==> forall|sink: &mut S|
                *sink == *old(serializer) ==> #[trigger] call_requires(serialize_none, (sink,)),
        ensures
            self.encoded(C::IMPL_SERIALIZE) matches Some(value) ==> exists|sink: &mut S|
                *sink == *old(serializer) && *final(sink) == *final(serializer)
                    && #[trigger] capability.serialized(&value, sink, out),
            self.encoded(C::IMPL_SERIALIZE) is None ==> exists|sink: &mut S|
                *sink == *old(serializer) && *final(sink) == *final(serializer)
                    && #[trigger] call_ensures(serialize_none, (sink,), out),
    {
        if C::IMPL_SERIALIZE {
            match &self.0 {
                Some(dat) => capability.maybe_serialize(dat, serializer).unwrap(),
                None => serialize_none(serializer),
            }
        } else {
            serialize_none(serializer)
        }
    }

    /// Reads a wrapper from `deserializer`.
    ///
    /// Where the capability is there, its own logic runs once on the source as
    /// it was handed in: the value it read comes back wrapped in `Some`, its
    /// failure comes back unchanged. Where it is not there, the result is the
    /// empty wrapper and nothing is read.
    pub fn deserialize<D, E, C>(deserializer: &mut D, capability: C) -> (out: Result<
        MaybeSerde<T>,
        E,
    >) where C: MaybeDe<T, D, E>
        requires
            C::IMPL_DESERIALIZE ==> forall|source: &mut D|
                *source == *old(deserializer) ==> #[trigger] capability.can_deserialize(source),
        ensures
            C::IMPL_DESERIALIZE ==> exists|source: &mut D, outcome: Result<T, E>|
                *source == *old(deserializer) && *final(source) == *final(deserializer)
                    && #[trigger] capability.deserialized(source, outcome) && out == Self::decoded(
                    outcome,
                ),
            !C::IMPL_DESERIALIZE ==> out == Ok::<MaybeSerde<T>, E>(MaybeSerde(None))
                && *final(deserializer) == *old(deserializer),
    {
        if C::IMPL_DESERIALIZE {
            Ok(MaybeSerde(Some(capability.maybe_deserialize(deserializer).unwrap()?)))
        } else {
            Ok(MaybeSerde(None))
        }
    }

    /// A value written through the wrapper and read back through it comes back
    /// as it was, wrapped in `Some`.
    ///
    /// This holds of a payload type that can be written and read, and whose own
    /// reading undoes its own writing on this value: `write` and `read` stand
    /// for the two, `W` for what is on the wire between them. The wrapper adds
    /// nothing around the value on the way out and only `Some` on the way in.
    pub proof fn lemma_round_trip<W, E>(
        value: T,
        write: spec_fn(T) -> W,
        read: spec_fn(W) -> Result<T, E>,
    )
        requires
            read(write(value)) == Ok::<T, E>(value),
        ensures
            MaybeSerde(Some(value)).encoded(true) matches Some(sent) && Self::decoded(
                read(write(sent)),
            ) == Ok::<MaybeSerde<T>, E>(MaybeSerde(Some(value))),
    {
    }

    /// Of a payload type that cannot be written, no value ever reaches the sink:
    /// the wrapper goes out as the null token whether it holds a value or not.
    /// The same holds of an empty wrapper, whatever the type can do.
    pub proof fn lemma_null_token(wrapper: MaybeSerde<T>, impl_serialize: bool)
        ensures
            (!impl_serialize || wrapper.0 is None) <==> wrapper.encoded(impl_serialize) is None,
    {
    }
}

} // verus!
