//! Request validation.
//!
//! Pure and side-effect free: every argument of a request is checked before
//! any hardware is touched.  Arguments are checked in a fixed order — bus
//! index first, then address, then register where present, then
//! value / payload / read length — and checking stops at the first failing
//! argument, so exactly one error is produced per call.

use vstd::prelude::*;

use crate::error::{ArgName, Reason, ValidationError};

verus! {

/// A single-byte argument is acceptable exactly when it lies in 0..=255.
pub open spec fn byte_ok(v: i32) -> bool {
    0 <= v <= 255
}

/// A bus index is acceptable exactly when it names a bus of the registry.
pub open spec fn bus_ok(registry_len: nat, bus_id: i32) -> bool {
    0 <= bus_id && (bus_id as nat) < registry_len
}

/// The error produced for an out-of-range numeric argument.
pub open spec fn spec_oob(arg: ArgName, v: i32) -> ValidationError {
    ValidationError { arg, value: Some(v), reason: Reason::OutOfBounds }
}

/// The error produced for a bus index that names no bus.
pub open spec fn spec_no_such_bus(v: i32) -> ValidationError {
    ValidationError { arg: ArgName::BusId, value: Some(v), reason: Reason::NoSuchBus }
}

/// The error produced for a request that requires a payload but got none.
pub open spec fn spec_no_values() -> ValidationError {
    ValidationError { arg: ArgName::Values, value: None, reason: Reason::NoValues }
}

/// A payload may hold at most this many bytes.
pub const MAX_PAYLOAD_LEN: usize = 255;

/// The offending value reported for an over-long payload: its length, capped
/// at the wire integer's range.
pub open spec fn spec_len_value(len: nat) -> i32 {
    if len > 0x7fff_ffff {
        0x7fff_ffff
    } else {
        len as i32
    }
}

/// Checks a target device address.
pub fn check_arg_addr(addr: i32) -> (r: Result<u16, ValidationError>)
    ensures
        byte_ok(addr) ==> r == Ok::<u16, ValidationError>(addr as u16),
        !byte_ok(addr) ==> r == Err::<u16, ValidationError>(spec_oob(ArgName::Addr, addr)),
{
    if 0 <= addr && addr <= 255 {
        Ok(addr as u16)
    } else {
        Err(crate::error::arg_err(ArgName::Addr, addr, Reason::OutOfBounds))
    }
}

/// Checks a register byte.
pub fn check_arg_reg(reg: i32) -> (r: Result<u8, ValidationError>)
    ensures
        byte_ok(reg) ==> r == Ok::<u8, ValidationError>(reg as u8),
        !byte_ok(reg) ==> r == Err::<u8, ValidationError>(spec_oob(ArgName::Reg, reg)),
{
    if 0 <= reg && reg <= 255 {
        Ok(reg as u8)
    } else {
        Err(crate::error::arg_err(ArgName::Reg, reg, Reason::OutOfBounds))
    }
}

/// Checks a single value byte.
pub fn check_arg_value(value: i32) -> (r: Result<u8, ValidationError>)
    ensures
        byte_ok(value) ==> r == Ok::<u8, ValidationError>(value as u8),
        !byte_ok(value) ==> r == Err::<u8, ValidationError>(spec_oob(ArgName::Value, value)),
{
    if 0 <= value && value <= 255 {
        Ok(value as u8)
    } else {
        Err(crate::error::arg_err(ArgName::Value, value, Reason::OutOfBounds))
    }
}

/// Checks a requested read length.
pub fn check_arg_num_bytes(num_bytes: i32) -> (r: Result<u8, ValidationError>)
    ensures
        byte_ok(num_bytes) ==> r == Ok::<u8, ValidationError>(num_bytes as u8),
        !byte_ok(num_bytes) ==> r == Err::<u8, ValidationError>(
            spec_oob(ArgName::NumBytes, num_bytes),
        ),
{
    if 0 <= num_bytes && num_bytes <= 255 {
        Ok(num_bytes as u8)
    } else {
        Err(crate::error::arg_err(ArgName::NumBytes, num_bytes, Reason::OutOfBounds))
    }
}

/// Checks one byte of a payload.  A failing byte is reported under the
/// payload argument, by its value, not its position.
pub fn check_arg_byte(byte: i32) -> (r: Result<u8, ValidationError>)
    ensures
        byte_ok(byte) ==> r == Ok::<u8, ValidationError>(byte as u8),
        !byte_ok(byte) ==> r == Err::<u8, ValidationError>(spec_oob(ArgName::Values, byte)),
{
    if 0 <= byte && byte <= 255 {
        Ok(byte as u8)
    } else {
        Err(crate::error::arg_err(ArgName::Values, byte, Reason::OutOfBounds))
    }
}

/// Checks a bus index against the registry's current length.
pub fn check_arg_bus_id(registry_len: usize, bus_id: i32) -> (r: Result<usize, ValidationError>)
    ensures
        bus_ok(registry_len as nat, bus_id) ==> r == Ok::<usize, ValidationError>(
            bus_id as usize,
        ),
        !bus_ok(registry_len as nat, bus_id) ==> r == Err::<usize, ValidationError>(
            spec_no_such_bus(bus_id),
        ),
{
    if bus_id >= 0 && (bus_id as usize) < registry_len {
        Ok(bus_id as usize)
    } else {
        Err(crate::error::arg_err(ArgName::BusId, bus_id, Reason::NoSuchBus))
    }
}

/// What checking a supplied payload yields: the payload narrowed to bytes,
/// or the error for the first byte out of range.
pub open spec fn spec_check_bytes(v: Seq<i32>) -> Result<Seq<u8>, ValidationError>
    decreases v.len(),
{
    if v.len() == 0 {
        Ok(Seq::empty())
    } else if !byte_ok(v[0]) {
        Err(spec_oob(ArgName::Values, v[0]))
    } else {
        match spec_check_bytes(v.drop_first()) {
            Ok(rest) => Ok(seq![v[0] as u8] + rest),
            Err(e) => Err(e),
        }
    }
}

proof fn lemma_check_bytes_all_ok(v: Seq<i32>)
    requires
        forall|j: int| 0 <= j < v.len() ==> byte_ok(#[trigger] v[j]),
    ensures
        spec_check_bytes(v) == Ok::<Seq<u8>, ValidationError>(
            v.map_values(|x: i32| x as u8),
        ),
    decreases v.len(),
{
    if v.len() == 0 {
        assert(v.map_values(|x: i32| x as u8) =~= Seq::empty());
    } else {
        lemma_check_bytes_all_ok(v.drop_first());
        assert(seq![v[0] as u8] + v.drop_first().map_values(|x: i32| x as u8) =~= v.map_values(
            |x: i32| x as u8,
        ));
    }
}

proof fn lemma_check_bytes_first_bad(v: Seq<i32>, i: int)
    requires
        0 <= i < v.len(),
        forall|j: int| 0 <= j < i ==> byte_ok(#[trigger] v[j]),
        !byte_ok(v[i]),
    ensures
        spec_check_bytes(v) == Err::<Seq<u8>, ValidationError>(spec_oob(ArgName::Values, v[i])),
    decreases v.len(),
{
    if i > 0 {
        lemma_check_bytes_first_bad(v.drop_first(), i - 1);
    }
}

/// Spec-level view of an optional payload of wire integers.
pub open spec fn payload_view(values: Option<Vec<i32>>) -> Option<Seq<i32>> {
    match values {
        None => None,
        Some(v) => Some(v@),
    }
}

/// What checking an optional payload yields: an absent payload (not merely
/// an empty one) is rejected with `NoValues`; one longer than
/// `MAX_PAYLOAD_LEN` is rejected as out of bounds, reporting its length;
/// otherwise it is checked byte by byte.
pub open spec fn spec_check_values(values: Option<Seq<i32>>) -> Result<Seq<u8>, ValidationError> {
    match values {
        None => Err(spec_no_values()),
        Some(v) => if v.len() > MAX_PAYLOAD_LEN {
            Err(spec_oob(ArgName::Values, spec_len_value(v.len())))
        } else {
            spec_check_bytes(v)
        },
    }
}

/// Checks a payload argument.  A request variant that requires a payload but
/// receives none fails with `NoValues`, distinct from a supplied payload
/// holding an out-of-range byte, which fails with `OutOfBounds` and reports
/// the first such byte's value.  A payload longer than `MAX_PAYLOAD_LEN`
/// fails with `OutOfBounds`, reporting its length.
pub fn check_arg_values(values: &Option<Vec<i32>>) -> (r: Result<Vec<u8>, ValidationError>)
    ensures
        match spec_check_values(payload_view(*values)) {
            Ok(s) => r matches Ok(w) && w@ == s,
            Err(e) => r == Err::<Vec<u8>, ValidationError>(e),
        },
{
    match values.as_ref() {
        None => Err(ValidationError {
            arg: ArgName::Values,
            value: None,
            reason: Reason::NoValues,
        }),
        Some(v) => {
            let n = v.len();
            if n > MAX_PAYLOAD_LEN {
                let reported: i32 = if n > 0x7fff_ffff {
                    0x7fff_ffff
                } else {
                    n as i32
                };
                return Err(crate::error::arg_err(ArgName::Values, reported, Reason::OutOfBounds));
            }
            let mut out: Vec<u8> = Vec::new();
            for i in 0..n
                invariant
                    payload_view(*values) == Some(v@),
                    n == v@.len(),
                    n <= MAX_PAYLOAD_LEN,
                    forall|j: int| 0 <= j < i ==> byte_ok(#[trigger] v@[j]),
                    out@ == v@.take(i as int).map_values(|x: i32| x as u8),
            {
                match check_arg_byte(v[i]) {
                    Ok(b) => {
                        out.push(b);
                        proof {
                            assert(v@.take(i + 1).map_values(|x: i32| x as u8) =~= v@.take(
                                i as int,
                            ).map_values(|x: i32| x as u8) + seq![v@[i as int] as u8]);
                        }
                    },
                    Err(e) => {
                        proof {
                            lemma_check_bytes_first_bad(v@, i as int);
                        }
                        return Err(e);
                    },
                }
            }
            proof {
                lemma_check_bytes_all_ok(v@);
                assert(v@.take(n as int) =~= v@);
            }
            Ok(out)
        },
    }
}

/// What validating a write-byte-to-register request yields, checking the
/// arguments in the fixed order bus index, address, register, value.
pub open spec fn spec_write_byte_reg_args(
    registry_len: nat,
    bus_id: i32,
    addr: i32,
    reg: i32,
    value: i32,
) -> Result<(), ValidationError> {
    if !bus_ok(registry_len, bus_id) {
        Err(spec_no_such_bus(bus_id))
    } else if !byte_ok(addr) {
        Err(spec_oob(ArgName::Addr, addr))
    } else if !byte_ok(reg) {
        Err(spec_oob(ArgName::Reg, reg))
    } else if !byte_ok(value) {
        Err(spec_oob(ArgName::Value, value))
    } else {
        Ok(())
    }
}

/// Validates the arguments of a write-byte-to-register request.
pub fn write_byte_reg_check_args(
    registry_len: usize,
    bus_id: i32,
    addr: i32,
    reg: i32,
    value: i32,
) -> (r: Result<(usize, u16, u8, u8), ValidationError>)
    ensures
        match spec_write_byte_reg_args(registry_len as nat, bus_id, addr, reg, value) {
            Ok(_) => r == Ok::<(usize, u16, u8, u8), ValidationError>(
                (bus_id as usize, addr as u16, reg as u8, value as u8),
            ),
            Err(e) => r == Err::<(usize, u16, u8, u8), ValidationError>(e),
        },
{
    let bus_id = check_arg_bus_id(registry_len, bus_id)?;
    let addr = check_arg_addr(addr)?;
    let reg = check_arg_reg(reg)?;
    let value = check_arg_value(value)?;
    Ok((bus_id, addr, reg, value))
}

/// What validating a write-byte request yields, checking bus index, then
/// address, then value.
pub open spec fn spec_write_byte_args(
    registry_len: nat,
    bus_id: i32,
    addr: i32,
    value: i32,
) -> Result<(), ValidationError> {
    if !bus_ok(registry_len, bus_id) {
        Err(spec_no_such_bus(bus_id))
    } else if !byte_ok(addr) {
        Err(spec_oob(ArgName::Addr, addr))
    } else if !byte_ok(value) {
        Err(spec_oob(ArgName::Value, value))
    } else {
        Ok(())
    }
}

/// Validates the arguments of a write-byte request.
pub fn write_byte_check_args(registry_len: usize, bus_id: i32, addr: i32, value: i32) -> (r:
    Result<(usize, u16, u8), ValidationError>)
    ensures
        match spec_write_byte_args(registry_len as nat, bus_id, addr, value) {
            Ok(_) => r == Ok::<(usize, u16, u8), ValidationError>(
                (bus_id as usize, addr as u16, value as u8),
            ),
            Err(e) => r == Err::<(usize, u16, u8), ValidationError>(e),
        },
{
    let bus_id = check_arg_bus_id(registry_len, bus_id)?;
    let addr = check_arg_addr(addr)?;
    let value = check_arg_value(value)?;
    Ok((bus_id, addr, value))
}

/// What validating a write-bytes request yields, checking bus index, then
/// address, then the payload.
pub open spec fn spec_write_bytes_args(
    registry_len: nat,
    bus_id: i32,
    addr: i32,
    values: Option<Seq<i32>>,
) -> Result<Seq<u8>, ValidationError> {
    if !bus_ok(registry_len, bus_id) {
        Err(spec_no_such_bus(bus_id))
    } else if !byte_ok(addr) {
        Err(spec_oob(ArgName::Addr, addr))
    } else {
        spec_check_values(values)
    }
}

/// Validates the arguments of a write-bytes request.
pub fn write_bytes_check_args(
    registry_len: usize,
    bus_id: i32,
    addr: i32,
    values: &Option<Vec<i32>>,
) -> (r: Result<(usize, u16, Vec<u8>), ValidationError>)
    ensures
        match spec_write_bytes_args(registry_len as nat, bus_id, addr, payload_view(*values)) {
            Ok(s) => r matches Ok(t) && t.0 == bus_id as usize && t.1 == addr as u16 && t.2@ == s,
            Err(e) => r == Err::<(usize, u16, Vec<u8>), ValidationError>(e),
        },
{
    let bus_id = check_arg_bus_id(registry_len, bus_id)?;
    let addr = check_arg_addr(addr)?;
    let values = check_arg_values(values)?;
    Ok((bus_id, addr, values))
}

/// What validating a write-bytes-to-register request yields, checking bus
/// index, then address, then register, then the payload.
pub open spec fn spec_write_bytes_reg_args(
    registry_len: nat,
    bus_id: i32,
    addr: i32,
    reg: i32,
    values: Option<Seq<i32>>,
) -> Result<Seq<u8>, ValidationError> {
    if !bus_ok(registry_len, bus_id) {
        Err(spec_no_such_bus(bus_id))
    } else if !byte_ok(addr) {
        Err(spec_oob(ArgName::Addr, addr))
    } else if !byte_ok(reg) {
        Err(spec_oob(ArgName::Reg, reg))
    } else {
        spec_check_values(values)
    }
}

/// Validates the arguments of a write-bytes-to-register request.
pub fn write_bytes_reg_check_args(
    registry_len: usize,
    bus_id: i32,
    addr: i32,
    reg: i32,
    values: &Option<Vec<i32>>,
) -> (r: Result<(usize, u16, u8, Vec<u8>), ValidationError>)
    ensures
        match spec_write_bytes_reg_args(
            registry_len as nat,
            bus_id,
            addr,
            reg,
            payload_view(*values),
        ) {
            Ok(s) => r matches Ok(t) && t.0 == bus_id as usize && t.1 == addr as u16 && t.2
                == reg as u8 && t.3@ == s,
            Err(e) => r == Err::<(usize, u16, u8, Vec<u8>), ValidationError>(e),
        },
{
    let bus_id = check_arg_bus_id(registry_len, bus_id)?;
    let addr = check_arg_addr(addr)?;
    let reg = check_arg_reg(reg)?;
    let values = check_arg_values(values)?;
    Ok((bus_id, addr, reg, values))
}

/// What validating a register-addressed read request yields, checking bus
/// index, then address, then register, then read length.
pub open spec fn spec_read_reg_args(
    registry_len: nat,
    bus_id: i32,
    addr: i32,
    reg: i32,
    num_bytes: i32,
) -> Result<(), ValidationError> {
    if !bus_ok(registry_len, bus_id) {
        Err(spec_no_such_bus(bus_id))
    } else if !byte_ok(addr) {
        Err(spec_oob(ArgName::Addr, addr))
    } else if !byte_ok(reg) {
        Err(spec_oob(ArgName::Reg, reg))
    } else if !byte_ok(num_bytes) {
        Err(spec_oob(ArgName::NumBytes, num_bytes))
    } else {
        Ok(())
    }
}

/// Validates the arguments of a register-addressed read request.
pub fn read_reg_check_args(
    registry_len: usize,
    bus_id: i32,
    addr: i32,
    reg: i32,
    num_bytes: i32,
) -> (r: Result<(usize, u16, u8, u8), ValidationError>)
    ensures
        match spec_read_reg_args(registry_len as nat, bus_id, addr, reg, num_bytes) {
            Ok(_) => r == Ok::<(usize, u16, u8, u8), ValidationError>(
                (bus_id as usize, addr as u16, reg as u8, num_bytes as u8),
            ),
            Err(e) => r == Err::<(usize, u16, u8, u8), ValidationError>(e),
        },
{
    let bus_id = check_arg_bus_id(registry_len, bus_id)?;
    let addr = check_arg_addr(addr)?;
    let reg = check_arg_reg(reg)?;
    let num_bytes = check_arg_num_bytes(num_bytes)?;
    Ok((bus_id, addr, reg, num_bytes))
}

/// What validating a read-byte request yields, checking bus index, then
/// address.
pub open spec fn spec_read_byte_args(registry_len: nat, bus_id: i32, addr: i32) -> Result<
    (),
    ValidationError,
> {
    if !bus_ok(registry_len, bus_id) {
        Err(spec_no_such_bus(bus_id))
    } else if !byte_ok(addr) {
        Err(spec_oob(ArgName::Addr, addr))
    } else {
        Ok(())
    }
}

/// Validates the arguments of a read-byte request.
pub fn read_byte_check_args(registry_len: usize, bus_id: i32, addr: i32) -> (r: Result<
    (usize, u16),
    ValidationError,
>)
    ensures
        match spec_read_byte_args(registry_len as nat, bus_id, addr) {
            Ok(_) => r == Ok::<(usize, u16), ValidationError>((bus_id as usize, addr as u16)),
            Err(e) => r == Err::<(usize, u16), ValidationError>(e),
        },
{
    let bus_id = check_arg_bus_id(registry_len, bus_id)?;
    let addr = check_arg_addr(addr)?;
    Ok((bus_id, addr))
}

/// What validating a read-bytes request yields, checking bus index, then
/// address, then read length.
pub open spec fn spec_read_bytes_args(
    registry_len: nat,
    bus_id: i32,
    addr: i32,
    num_bytes: i32,
) -> Result<(), ValidationError> {
    if !bus_ok(registry_len, bus_id) {
        Err(spec_no_such_bus(bus_id))
    } else if !byte_ok(addr) {
        Err(spec_oob(ArgName::Addr, addr))
    } else if !byte_ok(num_bytes) {
        Err(spec_oob(ArgName::NumBytes, num_bytes))
    } else {
        Ok(())
    }
}

/// Validates the arguments of a read-bytes request.
pub fn read_bytes_check_args(registry_len: usize, bus_id: i32, addr: i32, num_bytes: i32) -> (r:
    Result<(usize, u16, u8), ValidationError>)
    ensures
        match spec_read_bytes_args(registry_len as nat, bus_id, addr, num_bytes) {
            Ok(_) => r == Ok::<(usize, u16, u8), ValidationError>(
                (bus_id as usize, addr as u16, num_bytes as u8),
            ),
            Err(e) => r == Err::<(usize, u16, u8), ValidationError>(e),
        },
{
    let bus_id = check_arg_bus_id(registry_len, bus_id)?;
    let addr = check_arg_addr(addr)?;
    let num_bytes = check_arg_num_bytes(num_bytes)?;
    Ok((bus_id, addr, num_bytes))
}

/// Law: the bus index is checked first.  Whatever the other arguments hold,
/// a request against a bus index that names no bus — in particular every
/// index, when the registry is empty — fails with `NoSuchBus`.
pub proof fn lemma_bad_bus_rejected_first(
    registry_len: nat,
    bus_id: i32,
    addr: i32,
    reg: i32,
    value: i32,
    num_bytes: i32,
    values: Option<Seq<i32>>,
)
    requires
        !bus_ok(registry_len, bus_id),
    ensures
        spec_write_byte_reg_args(registry_len, bus_id, addr, reg, value) == Err::<
            (),
            ValidationError,
        >(spec_no_such_bus(bus_id)),
        spec_write_byte_args(registry_len, bus_id, addr, value) == Err::<(), ValidationError>(
            spec_no_such_bus(bus_id),
        ),
        spec_write_bytes_args(registry_len, bus_id, addr, values) == Err::<
            Seq<u8>,
            ValidationError,
        >(spec_no_such_bus(bus_id)),
        spec_write_bytes_reg_args(registry_len, bus_id, addr, reg, values) == Err::<
            Seq<u8>,
            ValidationError,
        >(spec_no_such_bus(bus_id)),
        spec_read_reg_args(registry_len, bus_id, addr, reg, num_bytes) == Err::<
            (),
            ValidationError,
        >(spec_no_such_bus(bus_id)),
        spec_read_byte_args(registry_len, bus_id, addr) == Err::<(), ValidationError>(
            spec_no_such_bus(bus_id),
        ),
        spec_read_bytes_args(registry_len, bus_id, addr, num_bytes) == Err::<(), ValidationError>(
            spec_no_such_bus(bus_id),
        ),
{
}

/// Law: against an empty registry no bus index is acceptable, so every
/// bus-indexed request fails with `NoSuchBus`.
pub proof fn lemma_empty_registry_rejects_every_index(bus_id: i32)
    ensures
        !bus_ok(0, bus_id),
{
}

} // verus!
