//! The transaction dispatcher.
//!
//! Stateless per call: each operation validates every argument, acquires the
//! registry — exclusive access is enforced by `&mut Registry`, so every
//! transaction is serialized with every other, even across unrelated buses —
//! invokes the matching primitive, and maps the result to the uniform
//! response shape.  On a validation failure no primitive is invoked and the
//! registry is untouched.

use vstd::prelude::*;

use vstd::string::StringExecFns;
use vstd::utf8::{encode_utf8, valid_utf8};

use crate::error::RequestError;
use crate::message::MessageShape;
use crate::registry::{BusDescriptor, Registry};
use crate::validate::{
    read_byte_check_args, read_bytes_check_args, read_reg_check_args, spec_read_byte_args,
    spec_read_bytes_args, spec_read_reg_args, spec_write_byte_args, spec_write_byte_reg_args,
    spec_write_bytes_args, spec_write_bytes_reg_args, payload_view, write_byte_check_args,
    write_byte_reg_check_args, write_bytes_check_args, write_bytes_reg_check_args,
};

verus! {

/// The outcome of a successful transaction: the count the exchange reported,
/// and the bytes read — present only for read operations.
#[derive(Debug, Clone, PartialEq, Eq)]
pub struct Outcome {
    pub ok: i32,
    pub values: Option<Vec<u8>>,
}

/// The dispatcher.  It holds no state of its own: the registry, handed to
/// every call, is the only state that outlives a request.
pub struct Server {}

/// Factory for dispatcher instances, one per connection.
pub struct NewService {}

impl NewService {
    pub fn new() -> (r: NewService) {
        NewService {  }
    }

    /// Instantiate a new dispatcher.
    pub fn new_service(&self) -> (r: Server) {
        Server {  }
    }
}

impl Server {
    pub fn new() -> (r: Server) {
        Server {  }
    }

    /// Lists the buses of the registry: index and device path of each, in
    /// index order.
    pub fn get_buses(&self, registry: &Registry) -> (r: Vec<BusDescriptor>)
        requires
            registry.wf(),
        ensures
            r@.len() == registry@.len(),
            forall|i: int| 0 <= i < r@.len() ==> (#[trigger] r@[i]).id == i && r@[i].path@
                == registry@[i],
    {
        registry.descriptors()
    }

    /// Writes a single byte to a device.
    pub fn write_byte(&self, registry: &mut Registry, bus_id: i32, addr: i32, value: i32) -> (r:
        Result<Outcome, RequestError>)
        requires
            old(registry).wf(),
        ensures
            final(registry).wf(),
            final(registry)@ == old(registry)@,
            match spec_write_byte_args(old(registry)@.len(), bus_id, addr, value) {
                Err(e) => r == Err::<Outcome, RequestError>(RequestError::Arg(e)) && final(registry).logs()
                    == old(registry).logs(),
                Ok(_) => {
                    &&& final(registry).logs() == old(registry).logs().update(
                        bus_id as int,
                        old(registry).logs()[bus_id as int].push(
                            seq![MessageShape::Write(seq![value as u8])],
                        ),
                    )
                    &&& match r {
                        Ok(o) => o.values is None && 0 <= o.ok <= 1,
                        Err(e2) => e2 is Hardware,
                    }
                },
            },
    {
        let (idx, addr, value) = match write_byte_check_args(registry.len(), bus_id, addr, value) {
            Ok(t) => t,
            Err(e) => {
                return Err(RequestError::Arg(e));
            },
        };
        match registry.write_byte(idx, addr, value) {
            Ok(n) => Ok(Outcome { ok: n, values: None }),
            Err(he) => Err(RequestError::Hardware(he)),
        }
    }

    /// Writes a payload of bytes to a device, verbatim, as one outbound
    /// message.
    pub fn write_bytes(
        &self,
        registry: &mut Registry,
        bus_id: i32,
        addr: i32,
        values: &Option<Vec<i32>>,
    ) -> (r: Result<Outcome, RequestError>)
        requires
            old(registry).wf(),
        ensures
            final(registry).wf(),
            final(registry)@ == old(registry)@,
            match spec_write_bytes_args(
                old(registry)@.len(),
                bus_id,
                addr,
                payload_view(*values),
            ) {
                Err(e) => r == Err::<Outcome, RequestError>(RequestError::Arg(e)) && final(registry).logs()
                    == old(registry).logs(),
                Ok(s) => {
                    &&& final(registry).logs() == old(registry).logs().update(
                        bus_id as int,
                        old(registry).logs()[bus_id as int].push(
                            seq![MessageShape::Write(s)],
                        ),
                    )
                    &&& match r {
                        Ok(o) => o.values is None && 0 <= o.ok <= 1,
                        Err(e2) => e2 is Hardware,
                    }
                },
            },
    {
        let (idx, addr, values) = match write_bytes_check_args(
            registry.len(),
            bus_id,
            addr,
            values,
        ) {
            Ok(t) => t,
            Err(e) => {
                return Err(RequestError::Arg(e));
            },
        };
        match registry.write_bytes(idx, addr, values) {
            Ok(n) => Ok(Outcome { ok: n, values: None }),
            Err(he) => Err(RequestError::Hardware(he)),
        }
    }

    /// Writes a single byte value to a register of a device: one outbound
    /// message whose payload is the register byte followed by the value.
    pub fn write_byte_reg(
        &self,
        registry: &mut Registry,
        bus_id: i32,
        addr: i32,
        reg: i32,
        value: i32,
    ) -> (r: Result<Outcome, RequestError>)
        requires
            old(registry).wf(),
        ensures
            final(registry).wf(),
            final(registry)@ == old(registry)@,
            match spec_write_byte_reg_args(old(registry)@.len(), bus_id, addr, reg, value) {
                Err(e) => r == Err::<Outcome, RequestError>(RequestError::Arg(e)) && final(registry).logs()
                    == old(registry).logs(),
                Ok(_) => {
                    &&& final(registry).logs() == old(registry).logs().update(
                        bus_id as int,
                        old(registry).logs()[bus_id as int].push(
                            seq![MessageShape::Write(seq![reg as u8, value as u8])],
                        ),
                    )
                    &&& match r {
                        Ok(o) => o.values is None && 0 <= o.ok <= 1,
                        Err(e2) => e2 is Hardware,
                    }
                },
            },
    {
        let (idx, addr, reg, value) = match write_byte_reg_check_args(
            registry.len(),
            bus_id,
            addr,
            reg,
            value,
        ) {
            Ok(t) => t,
            Err(e) => {
                return Err(RequestError::Arg(e));
            },
        };
        match registry.write_reg(idx, addr, reg, value) {
            Ok(n) => Ok(Outcome { ok: n, values: None }),
            Err(he) => Err(RequestError::Hardware(he)),
        }
    }

    /// Writes a payload of bytes to a register of a device: one outbound
    /// message whose payload is the register byte followed by the payload —
    /// the register byte is physically prepended before the primitive call.
    pub fn write_bytes_reg(
        &self,
        registry: &mut Registry,
        bus_id: i32,
        addr: i32,
        reg: i32,
        values: &Option<Vec<i32>>,
    ) -> (r: Result<Outcome, RequestError>)
        requires
            old(registry).wf(),
        ensures
            final(registry).wf(),
            final(registry)@ == old(registry)@,
            match spec_write_bytes_reg_args(
                old(registry)@.len(),
                bus_id,
                addr,
                reg,
                payload_view(*values),
            ) {
                Err(e) => r == Err::<Outcome, RequestError>(RequestError::Arg(e)) && final(registry).logs()
                    == old(registry).logs(),
                Ok(s) => {
                    &&& final(registry).logs() == old(registry).logs().update(
                        bus_id as int,
                        old(registry).logs()[bus_id as int].push(
                            seq![MessageShape::Write(seq![reg as u8] + s)],
                        ),
                    )
                    &&& match r {
                        Ok(o) => o.values is None && 0 <= o.ok <= 1,
                        Err(e2) => e2 is Hardware,
                    }
                },
            },
    {
        let (idx, addr, reg, values) = match write_bytes_reg_check_args(
            registry.len(),
            bus_id,
            addr,
            reg,
            values,
        ) {
            Ok(t) => t,
            Err(e) => {
                return Err(RequestError::Arg(e));
            },
        };
        let ghost checked = values@;
        let mut payload = values;
        payload.insert(0, reg);
        proof {
            assert(payload@ =~= seq![reg] + checked);
        }
        match registry.write_bytes(idx, addr, payload) {
            Ok(n) => Ok(Outcome { ok: n, values: None }),
            Err(he) => Err(RequestError::Hardware(he)),
        }
    }

    /// Reads one byte from a device.
    pub fn read_byte(&self, registry: &mut Registry, bus_id: i32, addr: i32) -> (r: Result<
        Outcome,
        RequestError,
    >)
        requires
            old(registry).wf(),
        ensures
            final(registry).wf(),
            final(registry)@ == old(registry)@,
            match spec_read_byte_args(old(registry)@.len(), bus_id, addr) {
                Err(e) => r == Err::<Outcome, RequestError>(RequestError::Arg(e)) && final(registry).logs()
                    == old(registry).logs(),
                Ok(_) => {
                    &&& final(registry).logs() == old(registry).logs().update(
                        bus_id as int,
                        old(registry).logs()[bus_id as int].push(
                            seq![MessageShape::Read(1 as nat)],
                        ),
                    )
                    &&& match r {
                        Ok(o) => (o.values matches Some(d) && d@.len() == 1) && 0 <= o.ok <= 1,
                        Err(e2) => e2 is Hardware,
                    }
                },
            },
    {
        let (idx, addr) = match read_byte_check_args(registry.len(), bus_id, addr) {
            Ok(t) => t,
            Err(e) => {
                return Err(RequestError::Arg(e));
            },
        };
        match registry.read_bytes(idx, addr, 1) {
            Ok((n, data)) => Ok(Outcome { ok: n, values: Some(data) }),
            Err(he) => Err(RequestError::Hardware(he)),
        }
    }

    /// Reads `num_bytes` bytes from a device.
    pub fn read_bytes(
        &self,
        registry: &mut Registry,
        bus_id: i32,
        addr: i32,
        num_bytes: i32,
    ) -> (r: Result<Outcome, RequestError>)
        requires
            old(registry).wf(),
        ensures
            final(registry).wf(),
            final(registry)@ == old(registry)@,
            match spec_read_bytes_args(old(registry)@.len(), bus_id, addr, num_bytes) {
                Err(e) => r == Err::<Outcome, RequestError>(RequestError::Arg(e)) && final(registry).logs()
                    == old(registry).logs(),
                Ok(_) => {
                    &&& final(registry).logs() == old(registry).logs().update(
                        bus_id as int,
                        old(registry).logs()[bus_id as int].push(
                            seq![MessageShape::Read(num_bytes as nat)],
                        ),
                    )
                    &&& match r {
                        Ok(o) => (o.values matches Some(d) && d@.len() == num_bytes as nat) && 0
                            <= o.ok <= 1,
                        Err(e2) => e2 is Hardware,
                    }
                },
            },
    {
        let (idx, addr, num_bytes) = match read_bytes_check_args(
            registry.len(),
            bus_id,
            addr,
            num_bytes,
        ) {
            Ok(t) => t,
            Err(e) => {
                return Err(RequestError::Arg(e));
            },
        };
        match registry.read_bytes(idx, addr, num_bytes) {
            Ok((n, data)) => Ok(Outcome { ok: n, values: Some(data) }),
            Err(he) => Err(RequestError::Hardware(he)),
        }
    }

    /// Reads `num_bytes` bytes from a register of a device: the register
    /// byte is written and the bytes are read in one atomic exchange.
    pub fn read_reg(
        &self,
        registry: &mut Registry,
        bus_id: i32,
        addr: i32,
        reg: i32,
        num_bytes: i32,
    ) -> (r: Result<Outcome, RequestError>)
        requires
            old(registry).wf(),
        ensures
            final(registry).wf(),
            final(registry)@ == old(registry)@,
            match spec_read_reg_args(old(registry)@.len(), bus_id, addr, reg, num_bytes) {
                Err(e) => r == Err::<Outcome, RequestError>(RequestError::Arg(e)) && final(registry).logs()
                    == old(registry).logs(),
                Ok(_) => {
                    &&& final(registry).logs() == old(registry).logs().update(
                        bus_id as int,
                        old(registry).logs()[bus_id as int].push(
                            seq![
                                MessageShape::Write(seq![reg as u8]),
                                MessageShape::Read(num_bytes as nat),
                            ],
                        ),
                    )
                    &&& match r {
                        Ok(o) => (o.values matches Some(d) && d@.len() == num_bytes as nat) && 0
                            <= o.ok <= 2,
                        Err(e2) => e2 is Hardware,
                    }
                },
            },
    {
        let (idx, addr, reg, num_bytes) = match read_reg_check_args(
            registry.len(),
            bus_id,
            addr,
            reg,
            num_bytes,
        ) {
            Ok(t) => t,
            Err(e) => {
                return Err(RequestError::Arg(e));
            },
        };
        match registry.read_reg(idx, addr, reg, num_bytes) {
            Ok((n, data)) => Ok(Outcome { ok: n, values: Some(data) }),
            Err(he) => Err(RequestError::Hardware(he)),
        }
    }

    /// Serves the static API description from the bytes of its file: the
    /// decoded text when the file was read and holds valid UTF-8, a
    /// not-found message when it could not be read, and a parse message
    /// when its bytes are not UTF-8.
    pub fn get_api(&self, file: Option<Vec<u8>>) -> (r: Result<String, String>)
        ensures
            match file {
                None => r is Err,
                Some(b) => {
                    &&& valid_utf8(b@) ==> (r matches Ok(s) && encode_utf8(s@) == b@)
                    &&& !valid_utf8(b@) ==> r is Err
                },
            },
    {
        match file {
            None => Err(String::from_str("File not found")),
            Some(bytes) => match decode_utf8(bytes) {
                Some(s) => Ok(s),
                None => Err(String::from_str("Hit error parsing API file")),
            },
        }
    }
}

/// Relies on `String::from_utf8`: it succeeds exactly when the bytes are
/// valid UTF-8, and the returned string's encoding is exactly those bytes.
#[verifier::external_body]
fn decode_utf8(bytes: Vec<u8>) -> (r: Option<String>)
    ensures
        r is Some <==> valid_utf8(bytes@),
        r matches Some(s) ==> encode_utf8(s@) == bytes@,
{
    String::from_utf8(bytes).ok()
}

} // verus!
