//! A unified error taxonomy for a secrets/parameter-store client.
//!
//! Failures from three sources — a remote-service call made through rusoto,
//! local I/O, and JSON decoding — are collapsed into the single
//! [`taxonomy::ErrorValue`] enum. The classification itself is a total,
//! verified function over the [`taxonomy::RawFailure`] model of the raw
//! service-failure shapes; the thin layer that reads those shapes out of
//! rusoto's own error type lives in [`rusoto`].

pub mod rusoto;
pub mod taxonomy;
