use volt_i2c::device::{
    alert_flags, clear_op, configure_ops, from_wire, millivolts_from_wire, to_wire, value_from_wire,
    write_word_op, AlertClear, BusOp, FlagRegister, WordRegister, REG_CONFIG, REG_MAX, REG_MIN, REG_STATUS,
};

#[test]
fn wire_form_swaps_bytes() {
    assert_eq!(to_wire(0x1234), 0x3412);
    assert_eq!(from_wire(0x3412), 0x1234);
    assert_eq!(to_wire(0x00FF), 0xFF00);
    assert_eq!(from_wire(to_wire(0xBEEF)), 0xBEEF);
}

#[test]
fn flag_bits_match_register_layout() {
    assert_eq!(FlagRegister::AlertHold.bits(), 0x10);
    assert_eq!(FlagRegister::AlertFlagEnable.bits(), 0x08);
    assert_eq!(FlagRegister::AlertPINEnable.bits(), 0x04);
    assert_eq!(FlagRegister::Polarity.bits(), 0x01);
    assert_eq!(FlagRegister::Tx32.bits(), 0x20);
}

#[test]
fn configure_writes_flags_then_clears_status() {
    let flags = FlagRegister::AlertFlagEnable.bits() | FlagRegister::AlertPINEnable.bits() | FlagRegister::Tx32.bits();
    assert_eq!(
        configure_ops(flags),
        vec![BusOp::WriteByte { addr: REG_CONFIG, byte: 0x2C }, BusOp::WriteByte { addr: REG_STATUS, byte: 0x03 }]
    );
}

#[test]
fn word_writes_are_encoded_and_swapped() {
    assert_eq!(write_word_op(WordRegister::Min, 50000), BusOp::WriteWord { addr: REG_MIN, word: 0x350C });
    assert_eq!(write_word_op(WordRegister::Max, 1000), BusOp::WriteWord { addr: REG_MAX, word: 0x3F00 });
    assert_eq!(write_word_op(WordRegister::UnderRange, 9500), BusOp::WriteWord { addr: 0x03, word: 0x5202 });
    assert_eq!(write_word_op(WordRegister::OverRange, 800), BusOp::WriteWord { addr: 0x04, word: 0x3200 });
    assert_eq!(write_word_op(WordRegister::Hysteresis, 1000), BusOp::WriteWord { addr: 0x05, word: 0x3F00 });
}

#[test]
fn clear_writes_status_bits() {
    assert_eq!(clear_op(AlertClear::Under), BusOp::WriteByte { addr: REG_STATUS, byte: 0x01 });
    assert_eq!(clear_op(AlertClear::Over), BusOp::WriteByte { addr: REG_STATUS, byte: 0x02 });
    assert_eq!(clear_op(AlertClear::Both), BusOp::WriteByte { addr: REG_STATUS, byte: 0x03 });
}

#[test]
fn readings_are_swapped_then_decoded() {
    assert_eq!(value_from_wire(0x3200), (800, false));
    assert_eq!(value_from_wire(0x0080), (0, true));
    assert_eq!(value_from_wire(0x35CC), (3125 * 16, true));
    assert_eq!(millivolts_from_wire(0x3200), 800);
    assert_eq!(millivolts_from_wire(0x32F0), 800);
}

#[test]
fn status_byte_gives_over_then_under() {
    assert_eq!(alert_flags(0x00), (false, false));
    assert_eq!(alert_flags(0x01), (false, true));
    assert_eq!(alert_flags(0x02), (true, false));
    assert_eq!(alert_flags(0x03), (true, true));
    assert_eq!(alert_flags(0xFC), (false, false));
}
