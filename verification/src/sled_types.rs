//! The sled error type, made known to Verus as an opaque type.

use vstd::prelude::*;
use sled::Error as SledError;

verus! {

#[verifier::external_type_specification]
#[verifier::external_body]
pub struct ExSledError(SledError);

} // verus!
