use crate::text::concat2;
use vstd::prelude::*;
use vstd::string::*;

verus! {

/// Errors of the Russula coordination layer.
#[derive(Debug)]
pub enum RussulaError {
    /// The connection failed or the peer went away.
    NetworkFail { dbg: String },
    /// No data is available right now; trying again later may succeed.
    NetworkBlocked { dbg: String },
    /// The peer could not be reached.
    NetworkConnectionRefused { dbg: String },
    /// The peer sent bytes that are not a well-formed message.
    BadMsg { dbg: String },
}

/// The result type of the Russula coordination layer.
pub type RussulaResult<T> = Result<T, RussulaError>;

/// Whether an error of this kind stops coordination: every kind except a
/// blocked (would-block) read or write.
pub open spec fn spec_is_fatal(e: RussulaError) -> bool {
    !(e is NetworkBlocked)
}

impl RussulaError {
    /// Whether the error stops coordination; only `NetworkBlocked` is
    /// transient.
    pub fn is_fatal(&self) -> (r: bool)
        ensures
            r == spec_is_fatal(*self),
    {
        match self {
            RussulaError::NetworkBlocked { dbg: _ } => false,
            RussulaError::NetworkFail { dbg: _ } => true,
            RussulaError::NetworkConnectionRefused { dbg: _ } => true,
            RussulaError::BadMsg { dbg: _ } => true,
        }
    }

    /// The human readable rendering: the kind's name, a space, and the detail.
    pub fn to_display_string(&self) -> (r: String)
        ensures
            r@ == (match *self {
                RussulaError::NetworkFail { dbg } => "NetworkFail "@ + dbg@,
                RussulaError::NetworkBlocked { dbg } => "NetworkBlocked "@ + dbg@,
                RussulaError::NetworkConnectionRefused { dbg } => "NetworkConnectionRefused "@
                    + dbg@,
                RussulaError::BadMsg { dbg } => "BadMsg "@ + dbg@,
            }),
    {
        match self {
            RussulaError::NetworkFail { dbg } => concat2("NetworkFail ", dbg.as_str()),
            RussulaError::NetworkBlocked { dbg } => concat2("NetworkBlocked ", dbg.as_str()),
            RussulaError::NetworkConnectionRefused { dbg } => concat2(
                "NetworkConnectionRefused ",
                dbg.as_str(),
            ),
            RussulaError::BadMsg { dbg } => concat2("BadMsg ", dbg.as_str()),
        }
    }
}

} // verus!
