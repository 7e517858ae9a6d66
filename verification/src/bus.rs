//! One opened bus device handle and its transaction primitives.
//!
//! The actual byte exchange is delegated to the host's I2C character-device
//! driver through `i2cdev2`; everything around the exchange — which messages
//! are sent, in what order, and how failures are surfaced — is verified.
//! Each handle carries a ghost log of the exchanges it has issued, by their
//! plan shape; only the trusted exchange extends it, so a primitive's
//! contract can pin down exactly what reached the hardware.

use vstd::prelude::*;

use crate::error::HardwareError;
use crate::message::{plan_view, I2cMessage, MessageShape};
use crate::message::{read_msgs, read_reg_msgs, write_msgs, write_reg_msgs};

verus! {

#[verifier::external_type_specification]
#[verifier::external_body]
pub struct ExLinuxI2CBus(i2cdev2::linux::LinuxI2CBus);

#[verifier::external_type_specification]
#[verifier::external_body]
pub struct ExLinuxI2CError(i2cdev2::linux::LinuxI2CError);

/// One bus of the registry: its stable index, the device node it was opened
/// from, and the exclusively owned open handle.
pub struct BusInfo {
    /// Index of this bus, assigned sequentially from 0 during discovery and
    /// stable for the process lifetime.
    pub id: usize,
    /// Filesystem path of the device node this handle was opened from.
    pub path: String,
    /// The open device handle; all access to the hardware goes through it.
    pub bus: i2cdev2::linux::LinuxI2CBus,
    /// The plan shape of every exchange issued on this handle, in order.
    /// Extended only by the trusted exchange below.
    pub exchanged: Ghost<Seq<Seq<MessageShape>>>,
}

/// Relies on i2cdev2's `LinuxI2CBus::new`: opens the device node at `path`
/// for reading and writing and returns the handle, or the error the open
/// reported.  Nothing further is known of the outcome: it depends on what is
/// present on the host.
#[verifier::external_body]
fn open_bus(path: &String) -> (r: Result<i2cdev2::linux::LinuxI2CBus, i2cdev2::linux::LinuxI2CError>)
{
    i2cdev2::linux::LinuxI2CBus::new(path.as_str())
}

/// Relies on i2cdev2's `I2CBus::rdwr` for `LinuxI2CBus`: submits the whole
/// message sequence as a single I2C_RDWR ioctl — one atomic exchange, the
/// bus is not released between the messages.  The driver writes inbound data
/// into the supplied buffers in place and never resizes them, and it only
/// reads outbound buffers, so the shape of the plan is preserved whatever
/// the outcome.  On success the returned count is the number of successfully
/// executed transactions, at most the number submitted; the ioctl reports
/// failure as an error, never as a negative count.  The handle's index and
/// path are untouched, and the plan of this exchange — issued whether or not
/// it succeeds — is appended to the handle's log.
#[verifier::external_body]
fn exchange(
    info: &mut BusInfo,
    addr: u16,
    msgs: &mut Vec<I2cMessage>,
) -> (r: Result<i32, i2cdev2::linux::LinuxI2CError>)
    ensures
        final(info).id == old(info).id,
        final(info).path == old(info).path,
        final(info).exchanged@ == old(info).exchanged@.push(plan_view(old(msgs)@)),
        plan_view(final(msgs)@) == plan_view(old(msgs)@),
        r matches Ok(n) ==> 0 <= n <= old(msgs)@.len(),
{
    let mut raw: Vec<i2cdev2::linux::I2CMsg> = Vec::with_capacity(msgs.len());
    for m in msgs.iter_mut() {
        match m {
            I2cMessage::Write { data } => raw.push(i2cdev2::linux::I2CMsg::new(addr, data)),
            I2cMessage::Read { buf } => {
                let mut msg = i2cdev2::linux::I2CMsg::new(addr, buf);
                msg.set_read();
                raw.push(msg);
            },
        }
    }
    i2cdev2::core::I2CBus::rdwr(&mut info.bus, &mut raw)
}

/// Relies on i2cdev2's `Display` impl for `LinuxI2CError` for the
/// description, and on its conversion into `std::io::Error`, whose
/// `raw_os_error` is the originating operating-system error number exactly
/// when the failure came from the OS.
#[verifier::external_body]
fn hardware_error_of(e: i2cdev2::linux::LinuxI2CError) -> (r: HardwareError)
{
    let description = format!("{}", e);
    let io_err: std::io::Error = e.into();
    HardwareError { code: io_err.raw_os_error(), description }
}

impl BusInfo {
    /// Opens the device node at `path` and wraps it with its index; no
    /// exchange has been issued on a fresh handle.
    pub fn new(id: usize, path: String) -> (r: Result<BusInfo, HardwareError>)
        ensures
            r matches Ok(b) ==> b.id == id && b.path@ == path@ && b.exchanged@ == Seq::<
                Seq<MessageShape>,
            >::empty(),
    {
        match open_bus(&path) {
            Ok(bus) => Ok(BusInfo { id, path, bus, exchanged: Ghost(Seq::empty()) }),
            Err(e) => Err(hardware_error_of(e)),
        }
    }

    /// Performs one atomic exchange of the given messages, all addressed to
    /// the device at `addr`.
    fn rdwr(&mut self, addr: u16, msgs: &mut Vec<I2cMessage>) -> (r: Result<i32, HardwareError>)
        ensures
            final(self).id == old(self).id,
            final(self).path == old(self).path,
            final(self).exchanged@ == old(self).exchanged@.push(plan_view(old(msgs)@)),
            plan_view(final(msgs)@) == plan_view(old(msgs)@),
            r matches Ok(n) ==> 0 <= n <= old(msgs)@.len(),
    {
        match exchange(self, addr, msgs) {
            Ok(n) => Ok(n),
            Err(e) => Err(hardware_error_of(e)),
        }
    }

    /// Writes the payload verbatim to the device at `addr`: exactly one
    /// exchange of one outbound message carrying the payload is issued.
    pub fn write_bytes(&mut self, addr: u16, values: Vec<u8>) -> (r: Result<i32, HardwareError>)
        ensures
            final(self).id == old(self).id,
            final(self).path == old(self).path,
            final(self).exchanged@ == old(self).exchanged@.push(
                seq![MessageShape::Write(values@)],
            ),
            r matches Ok(n) ==> 0 <= n <= 1,
    {
        let mut msgs = write_msgs(values);
        proof {
            assert(plan_view(msgs@).len() == msgs@.len());
        }
        self.rdwr(addr, &mut msgs)
    }

    /// Writes a single byte to the device at `addr`: exactly one exchange of
    /// one outbound message with payload `[value]` is issued.
    pub fn write_byte(&mut self, addr: u16, value: u8) -> (r: Result<i32, HardwareError>)
        ensures
            final(self).id == old(self).id,
            final(self).path == old(self).path,
            final(self).exchanged@ == old(self).exchanged@.push(
                seq![MessageShape::Write(seq![value])],
            ),
            r matches Ok(n) ==> 0 <= n <= 1,
    {
        let mut buf: Vec<u8> = Vec::new();
        buf.push(value);
        proof {
            assert(buf@ =~= seq![value]);
        }
        self.write_bytes(addr, buf)
    }

    /// Writes a single byte value to the register of the device at `addr`:
    /// exactly one exchange of one outbound message with payload
    /// `[reg, value]` is issued — register and value are never sent as two
    /// separate transfers.
    pub fn write_reg(&mut self, addr: u16, reg: u8, value: u8) -> (r: Result<i32, HardwareError>)
        ensures
            final(self).id == old(self).id,
            final(self).path == old(self).path,
            final(self).exchanged@ == old(self).exchanged@.push(
                seq![MessageShape::Write(seq![reg, value])],
            ),
            r matches Ok(n) ==> 0 <= n <= 1,
    {
        let mut msgs = write_reg_msgs(reg, value);
        proof {
            assert(plan_view(msgs@).len() == msgs@.len());
        }
        self.rdwr(addr, &mut msgs)
    }

    /// Reads `num_bytes` bytes from the device at `addr`: exactly one
    /// exchange of one inbound message requesting `num_bytes` bytes is
    /// issued; returns the transaction count and the bytes read.
    pub fn read_bytes(&mut self, addr: u16, num_bytes: u8) -> (r: Result<
        (i32, Vec<u8>),
        HardwareError,
    >)
        ensures
            final(self).id == old(self).id,
            final(self).path == old(self).path,
            final(self).exchanged@ == old(self).exchanged@.push(
                seq![MessageShape::Read(num_bytes as nat)],
            ),
            r matches Ok(p) ==> p.1@.len() == num_bytes as nat && 0 <= p.0 <= 1,
    {
        let mut msgs = read_msgs(num_bytes);
        proof {
            assert(plan_view(msgs@).len() == msgs@.len());
        }
        let n = match self.rdwr(addr, &mut msgs) {
            Ok(n) => n,
            Err(e) => {
                return Err(e);
            },
        };
        proof {
            assert(plan_view(msgs@).len() == msgs@.len());
            assert(plan_view(msgs@)[0] == msgs@[0]@);
            assert(msgs@[0]@ == MessageShape::Read(num_bytes as nat));
        }
        match msgs.pop() {
            Some(I2cMessage::Read { buf }) => Ok((n, buf)),
            _ => {
                proof {
                    assert(false);
                }
                vstd::pervasive::unreached()
            },
        }
    }

    /// Reads `num_bytes` bytes from the register of the device at `addr`:
    /// exactly one exchange of exactly two messages is issued — an outbound
    /// message carrying only the register byte, followed, without releasing
    /// the bus, by an inbound message of `num_bytes` bytes.
    pub fn read_reg(&mut self, addr: u16, reg: u8, num_bytes: u8) -> (r: Result<
        (i32, Vec<u8>),
        HardwareError,
    >)
        ensures
            final(self).id == old(self).id,
            final(self).path == old(self).path,
            final(self).exchanged@ == old(self).exchanged@.push(
                seq![MessageShape::Write(seq![reg]), MessageShape::Read(num_bytes as nat)],
            ),
            r matches Ok(p) ==> p.1@.len() == num_bytes as nat && 0 <= p.0 <= 2,
    {
        let mut msgs = read_reg_msgs(reg, num_bytes);
        proof {
            assert(plan_view(msgs@).len() == msgs@.len());
        }
        let n = match self.rdwr(addr, &mut msgs) {
            Ok(n) => n,
            Err(e) => {
                return Err(e);
            },
        };
        proof {
            assert(plan_view(msgs@).len() == msgs@.len());
            assert(plan_view(msgs@)[1] == msgs@[1]@);
            assert(msgs@[1]@ == MessageShape::Read(num_bytes as nat));
        }
        match msgs.pop() {
            Some(I2cMessage::Read { buf }) => Ok((n, buf)),
            _ => {
                proof {
                    assert(false);
                }
                vstd::pervasive::unreached()
            },
        }
    }
}

} // verus!
