//! Outcome of a shader compile or link status query.
//!
//! The graphics context reports a status flag and, on failure, a log;
//! querying both is outside work.  The decision — success, or which
//! error carries the log — is made here.

use vstd::prelude::*;

use crate::error::ShaderError;

verus! {

/// Which status a program object is checked for.
#[derive(Debug, PartialEq, Eq, Structural, Clone, Copy)]
pub enum CheckType {
    /// The link status of a whole program.
    Program,
    /// The compile status of a single shader stage.
    Shader,
}

/// Decides the outcome of a status query: a status flag of one is
/// success; anything else fails with the log, as a compilation error for
/// a shader stage and as a linking error for a program.
pub fn check_outcome(check_type: CheckType, success: i32, log: String) -> (r: Result<
    (),
    ShaderError,
>)
    ensures
        success == 1 <==> r is Ok,
        r matches Err(e) ==> match check_type {
            CheckType::Shader => e matches ShaderError::CompilationError(l) && l == log,
            CheckType::Program => e matches ShaderError::LinkingError(l) && l == log,
        },
{
    if success == 1 {
        Ok(())
    } else {
        match check_type {
            CheckType::Shader => Err(ShaderError::CompilationError(log)),
            CheckType::Program => Err(ShaderError::LinkingError(log)),
        }
    }
}

} // verus!
