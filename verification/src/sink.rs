//! The sink that renderings write into.
//!
//! The sink is `core::fmt::Formatter`, the one that `format!`, `write!` and `to_string` hand to
//! every `Display` and `Debug` implementation. The adapter never looks inside it and never
//! writes to it itself, so the verifier only has to know that the type exists.

use vstd::prelude::*;

verus! {

/// Declares `core::fmt::Formatter` to the verifier as an opaque type.
///
/// Nothing is claimed about what a formatter holds or does. Verified code can only carry a
/// `&mut Formatter` through to a callable and speak of its state before and after as values
/// that are equal or not.
#[verifier::external_type_specification]
#[verifier::external_body]
pub struct ExFormatter<'a>(core::fmt::Formatter<'a>);

/// Declares `core::fmt::Error`, the error of `core::fmt::Result`, as an opaque type.
///
/// Nothing is claimed about it. The adapter hands such an error back as it received it.
#[verifier::external_type_specification]
#[verifier::external_body]
pub struct ExError(core::fmt::Error);

} // verus!
