//! Derives partial views of a record: for each view an owned struct, a
//! by-reference struct and a by-mutable-reference struct, conversions from the
//! record into each of them, and an enum over all views with field accessors.
//!
//! The specification and the record come in as plain data (`model`); the
//! resolver (`resolve`) decides each field's types and flags; the generator
//! (`expand`) emits the declarations as Rust source text. The `convert`
//! module states what the emitted conversions do to values.
use vstd::prelude::*;

pub mod model;
pub mod types;
pub mod resolve;
pub mod expand;
pub mod merge;
pub mod convert;

use crate::expand::{expand, expand_text};
use crate::model::{BaseRecord, Views};
use crate::resolve::{resolve, spec_resolution_ok, Builder, ViewError};

verus! {

/// Resolves `view_spec` against `original_struct` and emits the generated
/// declarations; `enum_attributes` go on the enum over the views.
pub fn views(view_spec: &Views, original_struct: &BaseRecord, enum_attributes: Vec<String>) -> (r: Result<
    String,
    ViewError,
>)
    ensures
        r is Ok <==> spec_resolution_ok(*original_struct, *view_spec),
        r is Ok ==> exists|b: Builder|
            {
                &&& b.resolves(*original_struct, *view_spec)
                &&& b.enum_attributes == enum_attributes
                &&& r.unwrap()@ == expand_text(*original_struct, b)
            },
{
    match resolve(original_struct, view_spec, enum_attributes) {
        Ok(b) => Ok(expand(original_struct, &b)),
        Err(e) => Err(e),
    }
}

} // verus!
