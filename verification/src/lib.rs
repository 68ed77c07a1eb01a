//! Capability probes: ask of a value "can you be written, and if so, what comes
//! of it?" and of a type "can you be read, and if so, what comes of it?", with
//! the answer to the first half fixed by the types alone.
//!
//! A capability is either [`Present`], carrying the function that performs it,
//! or [`Absent`]. [`MaybeSer`] and [`MaybeDe`] probe it against a sink or a
//! source; [`MaybeSerde`] wraps an optional value and writes or reads it through
//! the probes, with a null token standing for whatever cannot be written.
pub mod capability;
pub mod de;
pub mod ser;
pub mod wrapper;

pub use capability::{Absent, Present};
pub use de::MaybeDe;
pub use ser::MaybeSer;
pub use wrapper::MaybeSerde;
