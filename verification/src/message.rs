//! The message sequences that make up one atomic bus exchange.
//!
//! Every transaction shape is built here as an explicit sequence of outbound
//! and inbound messages, so that what reaches the hardware is pinned down
//! before the exchange is performed.

use vstd::prelude::*;

verus! {

/// One message of an exchange: either an outbound message carrying data
/// verbatim, or an inbound message whose buffer the device fills.
#[derive(Debug, Clone, PartialEq, Eq)]
pub enum I2cMessage {
    Write { data: Vec<u8> },
    Read { buf: Vec<u8> },
}

/// The shape of a message as the contracts speak of it: the exact bytes of
/// an outbound message, or the length requested by an inbound one.
pub enum MessageShape {
    Write(Seq<u8>),
    Read(nat),
}

impl View for I2cMessage {
    type V = MessageShape;

    open spec fn view(&self) -> MessageShape {
        match *self {
            I2cMessage::Write { data } => MessageShape::Write(data@),
            I2cMessage::Read { buf } => MessageShape::Read(buf@.len()),
        }
    }
}

/// The shape of a whole exchange.
pub open spec fn plan_view(msgs: Seq<I2cMessage>) -> Seq<MessageShape> {
    msgs.map_values(|m: I2cMessage| m@)
}

/// The message sequence of a plain write: one outbound message carrying the
/// payload verbatim.
pub fn write_msgs(values: Vec<u8>) -> (r: Vec<I2cMessage>)
    ensures
        plan_view(r@) == seq![MessageShape::Write(values@)],
{
    let ghost v = values@;
    let mut msgs: Vec<I2cMessage> = Vec::new();
    msgs.push(I2cMessage::Write { data: values });
    proof {
        assert(plan_view(msgs@) =~= seq![MessageShape::Write(v)]);
    }
    msgs
}

/// The message sequence of a register-prefixed byte write: exactly one
/// outbound message whose payload is the register byte followed by the value
/// byte.  Register and value are never sent as two separate transfers, so no
/// other bus master can interleave between them.
pub fn write_reg_msgs(reg: u8, value: u8) -> (r: Vec<I2cMessage>)
    ensures
        plan_view(r@) == seq![MessageShape::Write(seq![reg, value])],
{
    let mut buf: Vec<u8> = Vec::new();
    buf.push(reg);
    buf.push(value);
    proof {
        assert(buf@ =~= seq![reg, value]);
    }
    write_msgs(buf)
}

/// The message sequence of a register-prefixed multi-byte write: exactly one
/// outbound message whose payload is the register byte followed by the
/// payload bytes.
pub fn write_bytes_reg_msgs(reg: u8, values: Vec<u8>) -> (r: Vec<I2cMessage>)
    ensures
        plan_view(r@) == seq![MessageShape::Write(seq![reg] + values@)],
{
    let ghost v = values@;
    let mut buf = values;
    buf.insert(0, reg);
    proof {
        assert(buf@ =~= seq![reg] + v);
    }
    write_msgs(buf)
}

/// A zero-filled buffer for an inbound message.
fn zero_buf(len: u8) -> (r: Vec<u8>)
    ensures
        r@.len() == len as nat,
{
    let mut buf: Vec<u8> = Vec::new();
    let n = len as usize;
    for i in 0..n
        invariant
            buf@.len() == i,
    {
        buf.push(0);
    }
    buf
}

/// The message sequence of a plain read: one inbound message requesting
/// `num_bytes` bytes.
pub fn read_msgs(num_bytes: u8) -> (r: Vec<I2cMessage>)
    ensures
        plan_view(r@) == seq![MessageShape::Read(num_bytes as nat)],
{
    let mut msgs: Vec<I2cMessage> = Vec::new();
    msgs.push(I2cMessage::Read { buf: zero_buf(num_bytes) });
    proof {
        assert(plan_view(msgs@) =~= seq![MessageShape::Read(num_bytes as nat)]);
    }
    msgs
}

/// The message sequence of a register-addressed read: exactly two messages
/// in one atomic exchange — an outbound message carrying only the register
/// byte, immediately followed, without releasing the bus, by an inbound
/// message of `num_bytes` bytes.
pub fn read_reg_msgs(reg: u8, num_bytes: u8) -> (r: Vec<I2cMessage>)
    ensures
        plan_view(r@) == seq![
            MessageShape::Write(seq![reg]),
            MessageShape::Read(num_bytes as nat),
        ],
{
    let mut regbuf: Vec<u8> = Vec::new();
    regbuf.push(reg);
    let mut msgs: Vec<I2cMessage> = Vec::new();
    msgs.push(I2cMessage::Write { data: regbuf });
    msgs.push(I2cMessage::Read { buf: zero_buf(num_bytes) });
    proof {
        assert(plan_view(msgs@) =~= seq![
            MessageShape::Write(seq![reg]),
            MessageShape::Read(num_bytes as nat),
        ]);
    }
    msgs
}

} // verus!
