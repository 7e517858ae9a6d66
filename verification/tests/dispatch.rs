use i2cbus::bus::BusInfo;
use i2cbus::dispatch::{NewService, Server};
use i2cbus::error::{ArgName, Reason, RequestError, ValidationError};
use i2cbus::registry::Registry;

fn no_such_bus(value: i32) -> RequestError {
    RequestError::Arg(ValidationError {
        arg: ArgName::BusId,
        value: Some(value),
        reason: Reason::NoSuchBus,
    })
}

#[test]
fn every_request_against_empty_registry_fails_with_no_such_bus() {
    let server = Server::new();
    let mut registry = Registry::empty();
    assert_eq!(
        server.write_byte(&mut registry, 0, 0x50, 0x42),
        Err(no_such_bus(0))
    );
    assert_eq!(
        server.write_bytes(&mut registry, 1, 0x50, &Some(vec![1])),
        Err(no_such_bus(1))
    );
    assert_eq!(
        server.write_byte_reg(&mut registry, 2, 0x50, 0x10, 0x42),
        Err(no_such_bus(2))
    );
    assert_eq!(
        server.write_bytes_reg(&mut registry, 3, 0x50, 0x10, &Some(vec![1])),
        Err(no_such_bus(3))
    );
    assert_eq!(server.read_byte(&mut registry, 4, 0x50), Err(no_such_bus(4)));
    assert_eq!(
        server.read_bytes(&mut registry, 5, 0x50, 4),
        Err(no_such_bus(5))
    );
    assert_eq!(
        server.read_reg(&mut registry, -1, 0x50, 0x10, 4),
        Err(no_such_bus(-1))
    );
}

#[test]
fn dispatcher_reports_first_invalid_argument() {
    let server = Server::new();
    let mut registry = Registry::empty();
    // The bus index is checked before the (also invalid) address.
    assert_eq!(
        server.write_byte(&mut registry, 7, 999, 300),
        Err(no_such_bus(7))
    );
    // An absent payload is only reported once the bus index failed first.
    assert_eq!(
        server.write_bytes(&mut registry, 7, 999, &None),
        Err(no_such_bus(7))
    );
}

#[test]
fn list_buses_of_empty_registry() {
    let server = Server::new();
    let registry = Registry::empty();
    assert!(server.get_buses(&registry).is_empty());
}

#[test]
fn new_service_hands_out_a_server() {
    let factory = NewService::new();
    let server = factory.new_service();
    let registry = Registry::empty();
    assert!(server.get_buses(&registry).is_empty());
}

#[test]
fn failed_open_reports_hardware_error_with_os_code() {
    // Opening a node that does not exist fails as an OS error, so the
    // error carries the OS error number and a description.
    let err = match BusInfo::new(0, String::from("/nonexistent-gateway-test-dir/i2c-0")) {
        Ok(_) => panic!("open of a nonexistent node succeeded"),
        Err(e) => e,
    };
    assert!(err.code.is_some());
    assert!(!err.description.is_empty());
}

#[test]
fn validation_failure_leaves_registry_untouched() {
    let server = Server::new();
    let mut registry = Registry::empty();
    let before = server.get_buses(&registry);
    let r = server.read_bytes(&mut registry, 0, 0x50, 4);
    assert!(matches!(r, Err(RequestError::Arg(_))));
    assert_eq!(server.get_buses(&registry), before);
}

#[test]
fn api_description_decoded_or_rejected() {
    let server = Server::new();
    assert_eq!(
        server.get_api(Some(b"openapi: 3.0.0\n".to_vec())),
        Ok(String::from("openapi: 3.0.0\n"))
    );
    assert!(server.get_api(None).is_err());
    assert!(server.get_api(Some(vec![0xff, 0xfe, 0x00, 0x80])).is_err());
}
