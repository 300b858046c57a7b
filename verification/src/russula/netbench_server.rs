//! The joint states of the earlier server protocol, each naming the
//! coordinator's and the worker's state together.

use vstd::prelude::*;

verus! {

/// Coordinator checks its peer.
#[derive(Debug, Clone, Copy, PartialEq, Eq, Structural)]
pub struct CoordCheckPeer;

/// Coordinator is ready.
#[derive(Debug, Clone, Copy, PartialEq, Eq, Structural)]
pub struct CoordReady;

/// Coordinator has its peer run.
#[derive(Debug, Clone, Copy, PartialEq, Eq, Structural)]
pub struct CoordRunPeer;

/// Coordinator has its peer stop.
#[derive(Debug, Clone, Copy, PartialEq, Eq, Structural)]
pub struct CoordKillPeer;

/// Coordinator is done.
#[derive(Debug, Clone, Copy, PartialEq, Eq, Structural)]
pub struct CoordDone;

/// Server waits for its peer to be ready.
#[derive(Debug, Clone, Copy, PartialEq, Eq, Structural)]
pub struct ServerWaitPeerReady;

/// Server is ready.
#[derive(Debug, Clone, Copy, PartialEq, Eq, Structural)]
pub struct ServerReady;

/// Server runs.
#[derive(Debug, Clone, Copy, PartialEq, Eq, Structural)]
pub struct ServerRun;

/// Server is done.
#[derive(Debug, Clone, Copy, PartialEq, Eq, Structural)]
pub struct ServerDone;

/// The joint (coordinator, server) states, in order.
#[allow(non_camel_case_types)]
#[derive(Debug, Clone, Copy)]
pub enum NetbenchServerStateMachine {
    AA_1((CoordCheckPeer, ServerWaitPeerReady)),
    AB_2((CoordCheckPeer, ServerReady)),
    BB_3((CoordReady, ServerReady)),
    CB_4((CoordRunPeer, ServerReady)),
    CC_5((CoordRunPeer, ServerRun)),
    DC_6((CoordKillPeer, ServerRun)),
    DD_7((CoordKillPeer, ServerDone)),
    ED_8((CoordDone, ServerDone)),
}

impl Default for NetbenchServerStateMachine {
    fn default() -> (r: NetbenchServerStateMachine)
        ensures
            r == NetbenchServerStateMachine::AA_1((CoordCheckPeer, ServerWaitPeerReady)),
    {
        NetbenchServerStateMachine::AA_1((CoordCheckPeer, ServerWaitPeerReady))
    }
}

/// A worker of the earlier server protocol, tracking the joint state.
#[derive(Clone, Copy)]
pub struct NetbenchWorkerServerProtocol {
    state: NetbenchServerStateMachine,
}

impl NetbenchWorkerServerProtocol {
    /// The joint state.
    pub closed spec fn current(&self) -> NetbenchServerStateMachine {
        self.state
    }

    /// The joint state.
    pub fn state(&self) -> (r: NetbenchServerStateMachine)
        ensures
            r == self.current(),
    {
        self.state
    }
}

impl Default for NetbenchWorkerServerProtocol {
    fn default() -> (r: NetbenchWorkerServerProtocol)
        ensures
            r.current() == NetbenchServerStateMachine::AA_1((CoordCheckPeer, ServerWaitPeerReady)),
    {
        NetbenchWorkerServerProtocol { state: NetbenchServerStateMachine::default() }
    }
}

} // verus!
