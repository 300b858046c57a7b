//! The orchestrator's errors.

use crate::text::owned;
use vstd::prelude::*;
use vstd::string::*;

verus! {

/// Errors of the orchestrator, by the service or step that failed, each with
/// a description.
#[derive(Debug)]
pub enum OrchError {
    Init { dbg: String },
    Ec2 { dbg: String },
    Iam { dbg: String },
    Ssm { dbg: String },
}

/// The result type of the orchestrator.
pub type OrchResult<T> = Result<T, OrchError>;

impl OrchError {
    /// The description the error carries.
    pub open spec fn detail(self) -> Seq<char> {
        match self {
            OrchError::Init { dbg } => dbg@,
            OrchError::Ec2 { dbg } => dbg@,
            OrchError::Iam { dbg } => dbg@,
            OrchError::Ssm { dbg } => dbg@,
        }
    }

    /// The human readable rendering: the description alone.
    pub fn to_display_string(&self) -> (r: String)
        ensures
            r@ == self.detail(),
    {
        match self {
            OrchError::Init { dbg } => owned(dbg.as_str()),
            OrchError::Ec2 { dbg } => owned(dbg.as_str()),
            OrchError::Iam { dbg } => owned(dbg.as_str()),
            OrchError::Ssm { dbg } => owned(dbg.as_str()),
        }
    }
}

} // verus!
