//! Compare values by a derived key.
//!
//! A `CmpByKey` wrapper pairs a value with a key-extraction function and
//! compares as the extracted keys compare, so ordered containers and sort
//! routines can be reused with ad-hoc comparison criteria. The [`permissive`]
//! module allows comparison across different wrapped types as long as the
//! keys are comparable; the [`strict`] module only compares wrappers built
//! over the same key-function type, and adds a total order when the key type
//! has one.

pub mod permissive;
pub mod strict;
