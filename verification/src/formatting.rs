//! What this crate uses of `core::fmt` to describe its types to a programmer.
//!
//! Where the text goes, and whether it gets there, is up to the formatter, so nothing
//! is claimed of it.

use core::fmt::{Debug, DebugStruct, Formatter};

use vstd::prelude::*;

verus! {

/// Makes `core::fmt::Formatter` known to the verifier.
#[verifier::external_type_specification]
#[verifier::external_body]
pub struct ExFormatter<'a>(core::fmt::Formatter<'a>);

/// Makes `core::fmt::Error` known to the verifier.
#[verifier::external_type_specification]
#[verifier::external_body]
pub struct ExFmtError(core::fmt::Error);

/// Makes `core::fmt::DebugStruct` known to the verifier.
#[verifier::external_type_specification]
#[verifier::external_body]
pub struct ExDebugStruct<'a, 'b>(core::fmt::DebugStruct<'a, 'b>) where 'b: 'a;

/// `Formatter::debug_struct` begins to describe a struct.
pub assume_specification<'a, 'b>[ Formatter::<'a>::debug_struct ](
    f: &'b mut Formatter<'a>,
    name: &str,
) -> (described: DebugStruct<'b, 'a>)
;

/// `DebugStruct::field` describes a field.
pub assume_specification<'a, 'b: 'a, 'c>[ DebugStruct::<'a, 'b>::field ](
    described: &'c mut DebugStruct<'a, 'b>,
    name: &str,
    value: &dyn Debug,
) -> (same: &'c mut DebugStruct<'a, 'b>)
;

/// `DebugStruct::finish` ends a description.
pub assume_specification<'a, 'b: 'a>[ DebugStruct::<'a, 'b>::finish ](
    described: &mut DebugStruct<'a, 'b>,
) -> (result: Result<(), core::fmt::Error>)
;

/// `DebugStruct::finish_non_exhaustive` ends a description that is not complete.
pub assume_specification<'a, 'b: 'a>[ DebugStruct::<'a, 'b>::finish_non_exhaustive ](
    described: &mut DebugStruct<'a, 'b>,
) -> (result: Result<(), core::fmt::Error>)
;

} // verus!
