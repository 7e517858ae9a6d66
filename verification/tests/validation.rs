use i2cbus::error::{ArgName, Reason, ValidationError};
use i2cbus::validate::{
    check_arg_addr, check_arg_bus_id, check_arg_byte, check_arg_num_bytes, check_arg_reg,
    check_arg_value, check_arg_values, read_byte_check_args, read_bytes_check_args,
    read_reg_check_args, write_byte_check_args, write_byte_reg_check_args, write_bytes_check_args,
    write_bytes_reg_check_args,
};

fn oob(arg: ArgName, value: i32) -> ValidationError {
    ValidationError { arg, value: Some(value), reason: Reason::OutOfBounds }
}

fn no_such_bus(value: i32) -> ValidationError {
    ValidationError { arg: ArgName::BusId, value: Some(value), reason: Reason::NoSuchBus }
}

fn no_values() -> ValidationError {
    ValidationError { arg: ArgName::Values, value: None, reason: Reason::NoValues }
}

#[test]
fn byte_arguments_accept_full_range() {
    assert_eq!(check_arg_addr(0), Ok(0u16));
    assert_eq!(check_arg_addr(255), Ok(255u16));
    assert_eq!(check_arg_reg(0), Ok(0u8));
    assert_eq!(check_arg_reg(255), Ok(255u8));
    assert_eq!(check_arg_value(128), Ok(128u8));
    assert_eq!(check_arg_num_bytes(4), Ok(4u8));
    assert_eq!(check_arg_byte(7), Ok(7u8));
}

#[test]
fn byte_arguments_reject_out_of_range() {
    assert_eq!(check_arg_addr(-1), Err(oob(ArgName::Addr, -1)));
    assert_eq!(check_arg_addr(256), Err(oob(ArgName::Addr, 256)));
    assert_eq!(check_arg_reg(300), Err(oob(ArgName::Reg, 300)));
    assert_eq!(check_arg_value(-5), Err(oob(ArgName::Value, -5)));
    assert_eq!(check_arg_num_bytes(1000), Err(oob(ArgName::NumBytes, 1000)));
    assert_eq!(check_arg_byte(256), Err(oob(ArgName::Values, 256)));
}

#[test]
fn bus_id_accepted_iff_below_registry_len() {
    assert_eq!(check_arg_bus_id(3, 0), Ok(0usize));
    assert_eq!(check_arg_bus_id(3, 2), Ok(2usize));
    assert_eq!(check_arg_bus_id(3, 3), Err(no_such_bus(3)));
    assert_eq!(check_arg_bus_id(3, -1), Err(no_such_bus(-1)));
}

#[test]
fn empty_registry_rejects_every_bus_id() {
    for id in [-2, -1, 0, 1, 2, 100] {
        assert_eq!(check_arg_bus_id(0, id), Err(no_such_bus(id)));
    }
}

#[test]
fn absent_payload_distinct_from_bad_byte() {
    assert_eq!(check_arg_values(&None), Err(no_values()));
    assert_eq!(check_arg_values(&Some(vec![])), Ok(vec![]));
    assert_eq!(
        check_arg_values(&Some(vec![1, 2, 300])),
        Err(oob(ArgName::Values, 300))
    );
}

#[test]
fn bad_payload_reports_first_offending_byte() {
    assert_eq!(
        check_arg_values(&Some(vec![400, 500])),
        Err(oob(ArgName::Values, 400))
    );
    assert_eq!(
        check_arg_values(&Some(vec![0, -3, 999])),
        Err(oob(ArgName::Values, -3))
    );
}

#[test]
fn payload_narrowed_to_bytes() {
    assert_eq!(
        check_arg_values(&Some(vec![0, 127, 255])),
        Ok(vec![0u8, 127u8, 255u8])
    );
}

#[test]
fn write_byte_reg_args_accepted() {
    assert_eq!(
        write_byte_reg_check_args(3, 1, 0x50, 0x10, 0x42),
        Ok((1usize, 0x50u16, 0x10u8, 0x42u8))
    );
}

#[test]
fn validation_order_bus_id_first() {
    // Every argument invalid: the error is always for the bus index.
    assert_eq!(
        write_byte_reg_check_args(0, 5, 999, -1, 300),
        Err(no_such_bus(5))
    );
    assert_eq!(write_byte_check_args(0, 5, 999, 300), Err(no_such_bus(5)));
    assert_eq!(
        write_bytes_check_args(0, 5, 999, &None),
        Err(no_such_bus(5))
    );
    assert_eq!(
        write_bytes_reg_check_args(0, 5, 999, -1, &None),
        Err(no_such_bus(5))
    );
    assert_eq!(read_reg_check_args(0, 5, 999, -1, 300), Err(no_such_bus(5)));
    assert_eq!(read_byte_check_args(0, 5, 999), Err(no_such_bus(5)));
    assert_eq!(read_bytes_check_args(0, 5, 999, 300), Err(no_such_bus(5)));
}

#[test]
fn validation_order_addr_before_reg_and_value() {
    // Valid bus, invalid rest: the error is for the address.
    assert_eq!(
        write_byte_reg_check_args(3, 1, 999, -1, 300),
        Err(oob(ArgName::Addr, 999))
    );
    // Valid bus and address: the register is checked next.
    assert_eq!(
        write_byte_reg_check_args(3, 1, 0x50, -1, 300),
        Err(oob(ArgName::Reg, -1))
    );
    // Only the value is invalid: it is reported.
    assert_eq!(
        write_byte_reg_check_args(3, 1, 0x50, 0x10, 300),
        Err(oob(ArgName::Value, 300))
    );
}

#[test]
fn validation_order_reg_before_payload() {
    assert_eq!(
        write_bytes_reg_check_args(3, 1, 0x50, 777, &None),
        Err(oob(ArgName::Reg, 777))
    );
    assert_eq!(
        write_bytes_reg_check_args(3, 1, 0x50, 0x10, &None),
        Err(no_values())
    );
}

#[test]
fn validation_order_reg_before_num_bytes() {
    assert_eq!(
        read_reg_check_args(3, 1, 0x50, 600, -4),
        Err(oob(ArgName::Reg, 600))
    );
    assert_eq!(
        read_reg_check_args(3, 1, 0x50, 0x10, -4),
        Err(oob(ArgName::NumBytes, -4))
    );
    assert_eq!(
        read_reg_check_args(3, 1, 0x50, 0x10, 4),
        Ok((1usize, 0x50u16, 0x10u8, 4u8))
    );
}

#[test]
fn read_and_write_args_accepted() {
    assert_eq!(read_byte_check_args(2, 0, 0x2a), Ok((0usize, 0x2au16)));
    assert_eq!(
        read_bytes_check_args(2, 1, 0x2a, 16),
        Ok((1usize, 0x2au16, 16u8))
    );
    assert_eq!(
        write_byte_check_args(2, 1, 0x2a, 0xff),
        Ok((1usize, 0x2au16, 255u8))
    );
    let got = write_bytes_check_args(2, 1, 0x2a, &Some(vec![1, 2, 3])).unwrap();
    assert_eq!(got, (1usize, 0x2au16, vec![1u8, 2u8, 3u8]));
    let got = write_bytes_reg_check_args(2, 1, 0x2a, 0x10, &Some(vec![9])).unwrap();
    assert_eq!(got, (1usize, 0x2au16, 0x10u8, vec![9u8]));
}

#[test]
fn payload_longer_than_bound_rejected_with_length() {
    let ok_payload: Vec<i32> = vec![0; 255];
    assert!(check_arg_values(&Some(ok_payload)).is_ok());
    let long_payload: Vec<i32> = vec![0; 256];
    assert_eq!(
        check_arg_values(&Some(long_payload)),
        Err(oob(ArgName::Values, 256))
    );
}

#[test]
fn payload_length_checked_before_bytes() {
    // Over-long and holding a bad byte: the length is reported, not the byte.
    let mut payload: Vec<i32> = vec![999];
    payload.extend(vec![0; 256]);
    assert_eq!(
        check_arg_values(&Some(payload)),
        Err(oob(ArgName::Values, 257))
    );
}
