use vstd::prelude::*;
use crate::number::Number;

verus! {

/// A runtime value bound to a name in a rendering context.
#[derive(Debug)]
pub enum Value {
    Num(Number),
    Str(String),
}

} // verus!
