use i2cbus::message::{
    read_msgs, read_reg_msgs, write_bytes_reg_msgs, write_msgs, write_reg_msgs, I2cMessage,
};

#[test]
fn register_write_is_one_message_with_reg_then_value() {
    // A byte write to a register must be a single outbound message whose
    // payload is the register byte followed by the value byte, never two
    // separate transfers.
    let msgs = write_reg_msgs(0x10, 0x42);
    assert_eq!(msgs, vec![I2cMessage::Write { data: vec![0x10, 0x42] }]);
}

#[test]
fn register_read_is_write_then_read_in_one_exchange() {
    // A register-addressed read must be exactly two messages: an outbound
    // message carrying only the register byte, then an inbound request for
    // the asked-for number of bytes.
    let msgs = read_reg_msgs(0x10, 4);
    assert_eq!(msgs.len(), 2);
    assert_eq!(msgs[0], I2cMessage::Write { data: vec![0x10] });
    match &msgs[1] {
        I2cMessage::Read { buf } => assert_eq!(buf.len(), 4),
        other => panic!("expected an inbound message, got {:?}", other),
    }
}

#[test]
fn plain_write_carries_payload_verbatim() {
    let msgs = write_msgs(vec![0xde, 0xad, 0xbe, 0xef]);
    assert_eq!(
        msgs,
        vec![I2cMessage::Write { data: vec![0xde, 0xad, 0xbe, 0xef] }]
    );
}

#[test]
fn register_bytes_write_prepends_register() {
    let msgs = write_bytes_reg_msgs(0x20, vec![1, 2, 3]);
    assert_eq!(msgs, vec![I2cMessage::Write { data: vec![0x20, 1, 2, 3] }]);
}

#[test]
fn plain_read_is_one_inbound_message() {
    let msgs = read_msgs(7);
    assert_eq!(msgs.len(), 1);
    match &msgs[0] {
        I2cMessage::Read { buf } => assert_eq!(buf.len(), 7),
        other => panic!("expected an inbound message, got {:?}", other),
    }
}

#[test]
fn zero_length_read_allowed() {
    let msgs = read_msgs(0);
    match &msgs[0] {
        I2cMessage::Read { buf } => assert_eq!(buf.len(), 0),
        other => panic!("expected an inbound message, got {:?}", other),
    }
}
