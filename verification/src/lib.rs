//! Homogeneous sequences of heterogeneous futures.
//!
//! Futures of different concrete types that resolve to the same output type are
//! wrapped, one inside the other, in `futures::future::Either`, so that all of
//! them share one element type and can be stored in one collection, without a
//! trait object and without an allocation per future.
//!
//! - [`internal`] declares the wrapper and its constructors.
//! - [`homogeneous`] builds the sequence: nothing, one future, or a first
//!   future in front of a sequence already built. Counted from zero, the
//!   future at position n of the arguments ends up at position n of the
//!   sequence, under n right branches, and resolves to the same value there.
//! - [`completion`] states what running such a sequence to the end gives, in
//!   the order of the futures or in the order of completion. Running it is
//!   left to the caller and an executor.

pub mod completion;
pub mod homogeneous;
pub mod internal;
