use vstd::prelude::*;

pub mod color;
pub mod source;
pub mod scheme;

verus! {

} // verus!
