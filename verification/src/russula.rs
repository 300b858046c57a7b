//! Russula: a coordinator drives one or more workers through matching state
//! machines, exchanging each side's current state over a byte stream.

pub mod error;
pub mod event;
pub mod network_utils;
pub mod states;
pub mod json_name;
pub mod protocol;
pub mod netbench;
pub mod netbench_server;
pub mod netbench_server_coord;
pub mod netbench_server_worker;

use crate::russula::error::RussulaError;
use vstd::prelude::*;
use vstd::string::*;

verus! {

/// How many times a coordinator tries to connect to a worker.
pub const CONNECT_ATTEMPTS: u32 = 3;

/// The connection attempts left for one worker.
pub struct ConnectRetry {
    attempts_left: u32,
}

impl ConnectRetry {
    /// The attempts left.
    pub closed spec fn left(&self) -> nat {
        self.attempts_left as nat
    }

    /// A fresh budget of `CONNECT_ATTEMPTS` attempts.
    pub fn new() -> (r: ConnectRetry)
        ensures
            r.left() == CONNECT_ATTEMPTS,
    {
        ConnectRetry { attempts_left: CONNECT_ATTEMPTS }
    }

    /// Asks for one more connection attempt: granted while attempts are
    /// left, and then one fewer is left; once none is, the answer is the
    /// `NetworkConnectionRefused` error that ends the build.
    pub fn next_attempt(&mut self) -> (r: Result<(), RussulaError>)
        ensures
            old(self).left() > 0 ==> r is Ok && final(self).left() == old(self).left() - 1,
            old(self).left() == 0 ==> (r matches Err(RussulaError::NetworkConnectionRefused { dbg })
                && dbg@ == "Failed to connect to peer"@),
            old(self).left() == 0 ==> final(self).left() == 0,
    {
        if self.attempts_left == 0 {
            Err(RussulaError::NetworkConnectionRefused { dbg: String::from_str("Failed to connect to peer") })
        } else {
            self.attempts_left = self.attempts_left - 1;
            Ok(())
        }
    }
}

} // verus!
