//! The framing of Russula messages on a byte stream: each message is one
//! length byte followed by that many payload bytes.

use crate::russula::error::RussulaError;
use crate::text::{ascii_str_debug, decimal, push_ascii_str_debug, push_decimal};
use vstd::prelude::*;
use vstd::string::*;

verus! {

/// One Russula message: a payload and the length byte sent ahead of it.
#[derive(Debug)]
pub struct Msg {
    len: u8,
    data: Vec<u8>,
}

/// The mathematical value of a message.
pub struct MsgView {
    pub len: u8,
    pub data: Seq<u8>,
}

impl View for Msg {
    type V = MsgView;

    closed spec fn view(&self) -> MsgView {
        MsgView { len: self.len, data: self.data@ }
    }
}

impl MsgView {
    /// The length byte matches the payload, which therefore has at most 255
    /// bytes.
    pub open spec fn wf(self) -> bool {
        self.len as nat == self.data.len()
    }
}

/// The bytes that carry a message on the stream: the length byte, then the
/// payload.
pub open spec fn frame_bytes(m: MsgView) -> Seq<u8> {
    seq![m.len] + m.data
}

/// What reading one message from the bytes waiting on a stream gives.
pub enum FrameRead {
    /// A message with this payload, taking this many bytes off the stream.
    Message { data: Seq<u8>, consumed: nat },
    /// Nothing to read yet.
    Blocked,
    /// Fewer payload bytes arrived than the length byte announced.
    Malformed,
}

/// Reading one message from `buf`, the bytes waiting on the stream: with no
/// byte the read would block; otherwise the first byte is the length, and
/// the payload is read only up to that length. A payload that has not begun
/// to arrive blocks; one that arrived only in part is malformed.
pub open spec fn read_frame_spec(buf: Seq<u8>) -> FrameRead {
    if buf.len() == 0 {
        FrameRead::Blocked
    } else {
        let len = buf[0] as nat;
        let avail = (buf.len() - 1) as nat;
        if avail >= len {
            FrameRead::Message { data: buf.subrange(1, 1 + len as int), consumed: 1 + len }
        } else if avail == 0 {
            FrameRead::Blocked
        } else {
            FrameRead::Malformed
        }
    }
}

impl Msg {
    /// A message carrying `data`; the length byte is the payload's length
    /// taken modulo 256, as a `u8` cast gives it.
    pub fn new(data: Vec<u8>) -> (r: Msg)
        ensures
            r@.data == data@,
            r@.len as nat == data@.len() % 256,
    {
        let len = (data.len() % 256) as u8;
        Msg { len, data }
    }

    /// The payload.
    pub fn as_bytes(&self) -> (r: &[u8])
        ensures
            r@ == self@.data,
    {
        self.data.as_slice()
    }

    /// The length byte.
    pub fn len(&self) -> (r: u8)
        ensures
            r == self@.len,
    {
        self.len
    }

    /// The payload, taken out of the message.
    pub fn into_data(self) -> (r: Vec<u8>)
        ensures
            r@ == self@.data,
    {
        self.data
    }
}

/// The bytes that carry `msg` on the stream.
pub fn write_frame(msg: &Msg) -> (r: Vec<u8>)
    ensures
        r@ == frame_bytes(msg@),
{
    let mut data: Vec<u8> = Vec::new();
    data.push(msg.len);
    let mut i: usize = 0;
    while i < msg.data.len()
        invariant
            i <= msg.data@.len(),
            data@ == seq![msg.len] + msg.data@.subrange(0, i as int),
        decreases msg.data@.len() - i,
    {
        data.push(msg.data[i]);
        i = i + 1;
        assert(data@ =~= seq![msg.len] + msg.data@.subrange(0, i as int));
    }
    assert(msg.data@.subrange(0, msg.data@.len() as int) =~= msg.data@);
    data
}

/// Whether every byte is ASCII.
pub open spec fn all_ascii_bytes(bs: Seq<u8>) -> bool {
    forall|i: int| 0 <= i < bs.len() ==> bs[i] < 128
}

fn is_ascii_bytes(bs: &[u8]) -> (r: bool)
    ensures
        r == all_ascii_bytes(bs@),
{
    let mut i: usize = 0;
    while i < bs.len()
        invariant
            i <= bs@.len(),
            forall|k: int| 0 <= k < i ==> bs@[k] < 128,
        decreases bs@.len() - i,
    {
        if bs[i] >= 128 {
            return false;
        }
        i = i + 1;
    }
    true
}

fn slice_from(buf: &[u8], from: usize) -> (r: Vec<u8>)
    requires
        from <= buf@.len(),
    ensures
        r@ == buf@.subrange(from as int, buf@.len() as int),
{
    let mut r: Vec<u8> = Vec::new();
    let mut k: usize = from;
    while k < buf.len()
        invariant
            from <= k <= buf@.len(),
            r@ == buf@.subrange(from as int, k as int),
        decreases buf@.len() - k,
    {
        r.push(buf[k]);
        k = k + 1;
        assert(r@ =~= buf@.subrange(from as int, k as int));
    }
    r
}

/// The detail of the error for a payload that arrived only in part: the
/// length byte and the payload bytes that arrived, as `{:?}` of a `str`
/// writes them (stated for an ASCII payload).
pub open spec fn partial_payload_detail(len: u8, arrived: Seq<u8>) -> Seq<char> {
    "received a malformed msg. len: "@ + decimal(len as nat) + " data: "@ + ascii_str_debug(arrived)
}

/// Reads one message from `buf`, the bytes waiting on the stream, and says
/// how many bytes it took; see `read_frame_spec`. A payload that arrived
/// only in part is a `BadMsg` error; when the part that arrived is ASCII,
/// its detail is `partial_payload_detail`.
pub fn read_frame(buf: &[u8]) -> (r: Result<(Msg, usize), RussulaError>)
    ensures
        match read_frame_spec(buf@) {
            FrameRead::Message { data, consumed } => r matches Ok((m, n)) && m@.data == data
                && m@.wf() && n == consumed,
            FrameRead::Blocked => r matches Err(e) && e is NetworkBlocked,
            FrameRead::Malformed => r matches Err(RussulaError::BadMsg { dbg }) && (all_ascii_bytes(
                buf@.subrange(1, buf@.len() as int),
            ) ==> dbg@ == partial_payload_detail(buf@[0], buf@.subrange(1, buf@.len() as int))),
        },
{
    if buf.len() == 0 {
        return Err(RussulaError::NetworkBlocked { dbg: String::from_str("no message available") });
    }
    let len = buf[0];
    let avail = buf.len() - 1;
    if avail >= len as usize {
        let mut data: Vec<u8> = Vec::new();
        let mut i: usize = 0;
        while i < len as usize
            invariant
                len as usize <= avail,
                avail == buf@.len() - 1,
                i <= len,
                data@ == buf@.subrange(1, 1 + i),
            decreases len - i,
        {
            data.push(buf[1 + i]);
            i = i + 1;
            assert(data@ =~= buf@.subrange(1, 1 + i));
        }
        Ok((Msg { len, data }, 1 + len as usize))
    } else if avail == 0 {
        Err(RussulaError::NetworkBlocked { dbg: String::from_str("message payload not yet available") })
    } else {
        let rest = slice_from(buf, 1);
        if is_ascii_bytes(rest.as_slice()) {
            let mut dbg = String::from_str("received a malformed msg. len: ");
            push_decimal(&mut dbg, len as u64);
            dbg.append(" data: ");
            push_ascii_str_debug(&mut dbg, rest.as_slice());
            Err(RussulaError::BadMsg { dbg })
        } else {
            Err(RussulaError::BadMsg { dbg: String::from_str("received a malformed msg") })
        }
    }
}

/// A message whose length byte matches its payload reads back whole from
/// its own frame, whatever follows it on the stream.
pub proof fn lemma_frame_roundtrip(m: MsgView, rest: Seq<u8>)
    requires
        m.wf(),
    ensures
        read_frame_spec(frame_bytes(m) + rest) == (FrameRead::Message {
            data: m.data,
            consumed: 1 + m.len as nat,
        }),
{
    let buf = frame_bytes(m) + rest;
    assert(buf[0] == m.len);
    assert(buf.subrange(1, 1 + m.len as int) =~= m.data);
}

} // verus!
