//! The version of this SDK, sent in the default `User-Agent` header.

use vstd::prelude::*;

verus! {

pub const VERSION: &'static str = "1.0.0";

} // verus!
