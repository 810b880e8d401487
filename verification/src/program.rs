//! Outcome of a variable-location query on a compiled program.
//!
//! The graphics context answers a location query with a signed index,
//! where a negative one means the name does not exist in the program.
//! The query is outside work; the decision how to read its answer is
//! made here.

use vstd::prelude::*;

use crate::error::ShaderError;

verus! {

/// Decides an attribute-location answer: a non-negative index is the
/// location, a negative one means no attribute of that name exists.
pub fn attr_location_outcome(ret: i32, attr: &str) -> (r: Result<u32, ShaderError>)
    ensures
        ret >= 0 <==> r is Ok,
        r matches Ok(loc) ==> loc == ret,
        r matches Err(e) ==> (e matches ShaderError::AttributeLocationParseError(n) && n@
            == attr@),
{
    if ret >= 0 {
        Ok(ret as u32)
    } else {
        Err(ShaderError::AttributeLocationParseError(attr.to_owned()))
    }
}

/// Decides a uniform-location answer: a non-negative index is the
/// location, a negative one means no uniform of that name exists.
pub fn uniform_location_outcome(ret: i32, name: &str) -> (r: Result<i32, ShaderError>)
    ensures
        ret >= 0 <==> r is Ok,
        r matches Ok(loc) ==> loc == ret,
        r matches Err(e) ==> (e matches ShaderError::UniformLocationParseError(n) && n@
            == name@),
{
    if ret >= 0 {
        Ok(ret)
    } else {
        Err(ShaderError::UniformLocationParseError(name.to_owned()))
    }
}

} // verus!
