//! The state side of a Russula protocol: what each state waits for, which
//! state follows it, and how a state is written on the wire.

use crate::russula::error::RussulaError;
use crate::russula::network_utils::Msg;
use crate::text::{bytes_debug, decimal, push_bytes_debug, push_decimal, ascii_bytes, bytes_eq, push_ascii};
use vstd::prelude::*;
use vstd::string::*;

verus! {

/// How a state machine leaves its current state.
#[derive(Debug)]
pub enum TransitionStep {
    /// The state machine moves on by itself.
    SelfDriven,
    /// The state machine moves on when its user asks.
    UserDriven,
    /// The state machine moves on when the peer sends these bytes.
    AwaitNext(Vec<u8>),
    /// The final state: there is no next transition.
    Finished,
}

/// The mathematical value of a `TransitionStep`.
pub enum StepSpec {
    SelfDriven,
    UserDriven,
    AwaitNext(Seq<u8>),
    Finished,
}

impl View for TransitionStep {
    type V = StepSpec;

    open spec fn view(&self) -> StepSpec {
        match self {
            TransitionStep::SelfDriven => StepSpec::SelfDriven,
            TransitionStep::UserDriven => StepSpec::UserDriven,
            TransitionStep::AwaitNext(b) => StepSpec::AwaitNext(b@),
            TransitionStep::Finished => StepSpec::Finished,
        }
    }
}

/// The wire form of a state without data: the variant's name as a JSON
/// string, that is, between double quotes.
pub open spec fn json_name(name: Seq<char>) -> Seq<u8> {
    seq![34u8] + ascii_bytes(name) + seq![34u8]
}

/// Whether a byte is JSON whitespace: space, tab, line feed or carriage
/// return.
pub open spec fn is_json_ws(c: u8) -> bool {
    c == 32 || c == 9 || c == 10 || c == 13
}

/// `b` without its leading JSON whitespace.
pub open spec fn trim_ws_start(b: Seq<u8>) -> Seq<u8>
    decreases b.len(),
{
    if b.len() > 0 && is_json_ws(b[0]) {
        trim_ws_start(b.drop_first())
    } else {
        b
    }
}

/// `b` without its trailing JSON whitespace.
pub open spec fn trim_ws_end(b: Seq<u8>) -> Seq<u8>
    decreases b.len(),
{
    if b.len() > 0 && is_json_ws(b.last()) {
        trim_ws_end(b.drop_last())
    } else {
        b
    }
}

/// `b` without the JSON whitespace around it, which a JSON reader skips.
pub open spec fn json_trim(b: Seq<u8>) -> Seq<u8> {
    trim_ws_end(trim_ws_start(b))
}

fn is_json_ws_byte(c: u8) -> (r: bool)
    ensures
        r == is_json_ws(c),
{
    c == 32 || c == 9 || c == 10 || c == 13
}

/// The bytes of `b` without the JSON whitespace around them; see
/// `json_trim`.
pub fn trim_json_ws(b: &[u8]) -> (r: Vec<u8>)
    ensures
        r@ == json_trim(b@),
{
    let n = b.len();
    let mut i: usize = 0;
    assert(b@.subrange(0, n as int) =~= b@);
    while i < n && is_json_ws_byte(b[i])
        invariant
            n == b@.len(),
            i <= n,
            trim_ws_start(b@) == trim_ws_start(b@.subrange(i as int, n as int)),
        decreases n - i,
    {
        assert(b@.subrange(i as int, n as int).drop_first() =~= b@.subrange(i + 1, n as int));
        i = i + 1;
    }
    assert(trim_ws_start(b@) == b@.subrange(i as int, n as int));
    let mut j: usize = n;
    while j > i && is_json_ws_byte(b[j - 1])
        invariant
            n == b@.len(),
            i <= j <= n,
            json_trim(b@) == trim_ws_end(b@.subrange(i as int, j as int)),
        decreases j,
    {
        assert(b@.subrange(i as int, j as int).drop_last() =~= b@.subrange(i as int, j - 1));
        j = j - 1;
    }
    assert(json_trim(b@) == b@.subrange(i as int, j as int));
    let mut r: Vec<u8> = Vec::new();
    let mut k: usize = i;
    while k < j
        invariant
            n == b@.len(),
            i <= k <= j <= n,
            r@ == b@.subrange(i as int, k as int),
        decreases j - k,
    {
        r.push(b[k]);
        k = k + 1;
        assert(r@ =~= b@.subrange(i as int, k as int));
    }
    r
}

/// The wire form of the variant called `name`; see `json_name`.
pub fn json_name_bytes(name: &str) -> (r: Vec<u8>)
    ensures
        r@ == json_name(name@),
{
    let mut v: Vec<u8> = Vec::new();
    v.push(34u8);
    push_ascii(&mut v, name);
    v.push(34u8);
    assert(v@ =~= json_name(name@));
    v
}

/// The states of one side of a Russula protocol.
pub trait StateApi: Sized + Copy {
    /// How the state is left.
    spec fn step_spec(&self) -> StepSpec;

    /// The state that follows.
    spec fn next_spec(&self) -> Self;

    /// The state's bytes on the wire.
    spec fn bytes_spec(&self) -> Seq<u8>;

    /// The state that `bytes` carry, if any.
    spec fn decode_spec(bytes: Seq<u8>) -> Option<Self>;

    /// The prefix of the names under which this side logs.
    spec fn prefix_spec(&self) -> Seq<char>;

    /// The prefix of the names under which this side logs.
    fn name_prefix(&self) -> (r: String)
        ensures
            r@ == self.prefix_spec(),
    ;

    /// How the state is left.
    fn transition_step(&self) -> (r: TransitionStep)
        ensures
            r@ == self.step_spec(),
    ;

    /// The state that follows.
    fn next_state(&self) -> (r: Self)
        ensures
            r == self.next_spec(),
    ;

    /// The state's bytes on the wire.
    fn as_bytes(&self) -> (r: Vec<u8>)
        ensures
            r@ == self.bytes_spec(),
    ;

    /// The state that `bytes` carry; bytes that carry no state are a
    /// `BadMsg` error.
    fn from_bytes(bytes: &[u8]) -> (r: Result<Self, RussulaError>)
        ensures
            match Self::decode_spec(bytes@) {
                Some(s) => r matches Ok(t) && t == s,
                None => r matches Err(e) && e is BadMsg,
            },
    ;
}

/// Whether `msg` is the one `state` waits for to move on.
pub open spec fn spec_matches_transition_msg<S: StateApi>(state: S, data: Seq<u8>) -> bool {
    match state.step_spec() {
        StepSpec::AwaitNext(expected) => expected == data,
        _ => false,
    }
}

/// Whether `msg` is the one `state` waits for to move on: the state awaits
/// a peer message and the payload is exactly the awaited bytes.
pub fn matches_transition_msg<S: StateApi>(state: &S, msg: &Msg) -> (r: bool)
    ensures
        r == spec_matches_transition_msg(*state, msg@.data),
{
    match state.transition_step() {
        TransitionStep::AwaitNext(expected) => bytes_eq(expected.as_slice(), msg.as_bytes()),
        _ => false,
    }
}

/// Whether two states are the same on the wire.
pub fn same_state<S: StateApi>(a: &S, b: &S) -> (r: bool)
    ensures
        r == (a.bytes_spec() == b.bytes_spec()),
{
    let x = a.as_bytes();
    let y = b.as_bytes();
    bytes_eq(x.as_slice(), y.as_slice())
}

/// Whether the state is final.
pub fn is_finished<S: StateApi>(s: &S) -> (r: bool)
    ensures
        r == (s.step_spec() is Finished),
{
    match s.transition_step() {
        TransitionStep::Finished => true,
        _ => false,
    }
}

/// The detail of the error for a message that carries no state: its
/// length byte and its payload, as `{:?}` of the `bytes` crate writes it.
pub open spec fn malformed_msg_detail(len: u8, data: Seq<u8>) -> Seq<char> {
    "received a malformed msg. len: "@ + decimal(len as nat) + " data: "@ + bytes_debug(data)
}

/// The state a message carries; see `StateApi::from_bytes`. A message that
/// carries no state is a `BadMsg` error whose detail shows the message; see
/// `malformed_msg_detail`.
pub fn from_msg<S: StateApi>(msg: &Msg) -> (r: Result<S, RussulaError>)
    ensures
        match S::decode_spec(msg@.data) {
            Some(s) => r matches Ok(t) && t == s,
            None => r matches Err(RussulaError::BadMsg { dbg }) && dbg@ == malformed_msg_detail(
                msg@.len,
                msg@.data,
            ),
        },
{
    match S::from_bytes(msg.as_bytes()) {
        Ok(s) => Ok(s),
        Err(_) => {
            let mut dbg = String::from_str("received a malformed msg. len: ");
            push_decimal(&mut dbg, msg.len() as u64);
            dbg.append(" data: ");
            push_bytes_debug(&mut dbg, msg.as_bytes());
            Err(RussulaError::BadMsg { dbg })
        },
    }
}

/// Whether a side whose state is left by `step` can move on while its peer
/// is at a state with bytes `peer_bytes`: a self- or user-driven state
/// always can, an awaiting state when the peer's bytes are the awaited
/// ones, and the final state never.
pub open spec fn can_move(step: StepSpec, peer_bytes: Seq<u8>) -> bool {
    match step {
        StepSpec::SelfDriven => true,
        StepSpec::UserDriven => true,
        StepSpec::AwaitNext(expected) => expected == peer_bytes,
        StepSpec::Finished => false,
    }
}

/// One move of a coordinator and a worker exchanging their states: one of
/// the two moves to its next state, as its step allows given the other's
/// current state, while the other stays.
pub open spec fn joint_step<C: StateApi, W: StateApi>(c: C, w: W, c2: C, w2: W) -> bool {
    ||| (w2 == w && can_move(c.step_spec(), w.bytes_spec()) && c2 == c.next_spec())
    ||| (c2 == c && can_move(w.step_spec(), c.bytes_spec()) && w2 == w.next_spec())
}

/// The wire form of a state is its name's length plus the two quotes long.
pub proof fn lemma_json_name_len(name: Seq<char>)
    ensures
        json_name(name).len() == name.len() + 2,
{
}

/// The first byte after the opening quote of a state's wire form is the
/// first character of its name.
pub proof fn lemma_json_name_first(name: Seq<char>)
    requires
        name.len() > 0,
    ensures
        json_name(name).len() == name.len() + 2,
        json_name(name)[1] == name[0] as u8,
{
}

/// A `BadMsg` error for bytes that carry no known state, saying that a
/// malformed message was received.
pub fn unknown_state_error() -> (r: RussulaError)
    ensures
        r matches RussulaError::BadMsg { dbg } && dbg@ == "received a malformed msg"@,
{
    RussulaError::BadMsg { dbg: String::from_str("received a malformed msg") }
}

} // verus!
