//! The wrapper that marks a value as the JSON body of a request or of a
//! response.

use vstd::prelude::*;

verus! {

/// A value that travels as a JSON body.
#[derive(Debug)]
pub struct Json<T>(pub T);

} // verus!
