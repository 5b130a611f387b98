//! The device's register map, the bus transactions behind each semantic
//! operation, and the interpretation of what the device answers.
//!
//! Words cross the bus most-significant byte first, while an SMBus word
//! transfer sends its low byte first: every word is byte-swapped between
//! its logical value and the transfer.
use vstd::prelude::*;
use crate::codec::{decode, decode_spec, encode, encode_spec, alert_spec};

verus! {

/// Current value and alert flag.
pub const REG_VALUE: u8 = 0x00;
/// Latched alert status: bit 1 over range, bit 0 under range.
pub const REG_STATUS: u8 = 0x01;
/// Configuration flags.
pub const REG_CONFIG: u8 = 0x02;
/// Under-range alert threshold.
pub const REG_UNDER_RANGE: u8 = 0x03;
/// Over-range alert threshold.
pub const REG_OVER_RANGE: u8 = 0x04;
/// Hysteresis of the device's own alerts.
pub const REG_HYSTERESIS: u8 = 0x05;
/// Minimum watermark.
pub const REG_MIN: u8 = 0x06;
/// Maximum watermark.
pub const REG_MAX: u8 = 0x07;

/// Status bit of a latched under-range alert.
pub const STATUS_UNDER: u8 = 0x01;
/// Status bit of a latched over-range alert.
pub const STATUS_OVER: u8 = 0x02;

/// Flags of the configuration register.
#[derive(Clone, Copy, Debug, PartialEq, Eq, Structural)]
pub enum FlagRegister {
    AlertHold,
    AlertFlagEnable,
    AlertPINEnable,
    Polarity,
    Tx32,
}

impl FlagRegister {
    pub open spec fn spec_bits(self) -> u8 {
        match self {
            FlagRegister::AlertHold => 0x10,
            FlagRegister::AlertFlagEnable => 0x08,
            FlagRegister::AlertPINEnable => 0x04,
            FlagRegister::Polarity => 0x01,
            FlagRegister::Tx32 => 0x20,
        }
    }

    /// The flag's bit in the configuration register.
    pub fn bits(self) -> (r: u8)
        ensures
            r == self.spec_bits(),
    {
        match self {
            FlagRegister::AlertHold => 0x10,
            FlagRegister::AlertFlagEnable => 0x08,
            FlagRegister::AlertPINEnable => 0x04,
            FlagRegister::Polarity => 0x01,
            FlagRegister::Tx32 => 0x20,
        }
    }
}

/// The registers that hold a twelve-bit value.
#[derive(Clone, Copy, Debug, PartialEq, Eq, Structural)]
pub enum WordRegister {
    UnderRange,
    OverRange,
    Hysteresis,
    Min,
    Max,
}

impl WordRegister {
    pub open spec fn spec_addr(self) -> u8 {
        match self {
            WordRegister::UnderRange => REG_UNDER_RANGE,
            WordRegister::OverRange => REG_OVER_RANGE,
            WordRegister::Hysteresis => REG_HYSTERESIS,
            WordRegister::Min => REG_MIN,
            WordRegister::Max => REG_MAX,
        }
    }

    /// The register's address.
    pub fn addr(self) -> (r: u8)
        ensures
            r == self.spec_addr(),
    {
        match self {
            WordRegister::UnderRange => REG_UNDER_RANGE,
            WordRegister::OverRange => REG_OVER_RANGE,
            WordRegister::Hysteresis => REG_HYSTERESIS,
            WordRegister::Min => REG_MIN,
            WordRegister::Max => REG_MAX,
        }
    }
}

/// Which latched alerts to acknowledge.
#[derive(Clone, Copy, Debug, PartialEq, Eq, Structural)]
pub enum AlertClear {
    Under,
    Over,
    Both,
}

/// One bus transaction; words are given as they go on the bus.
#[derive(Clone, Copy, Debug, PartialEq, Eq, Structural)]
pub enum BusOp {
    ReadWord { addr: u8 },
    ReadByte { addr: u8 },
    WriteWord { addr: u8, word: u16 },
    WriteByte { addr: u8, byte: u8 },
}

/// A word with its two bytes exchanged.
pub open spec fn swap_spec(w: u16) -> u16 {
    ((w as int % 256) * 256 + w as int / 256) as u16
}

/// The transfer form of a logical word.
pub fn to_wire(word: u16) -> (r: u16)
    ensures
        r == swap_spec(word),
{
    assert((word << 8u16) | (word >> 8u16) == ((word % 256) * 256 + word / 256) as u16)
        by (bit_vector);
    (word << 8u16) | (word >> 8u16)
}

/// The logical word of a transfer.
pub fn from_wire(wire: u16) -> (r: u16)
    ensures
        r == swap_spec(wire),
        swap_spec(r) == wire,
{
    assert(swap_spec(swap_spec(wire)) == wire) by {
        let w = wire as int;
        let s = (w % 256) * 256 + w / 256;
        assert(s % 256 == w / 256 && s / 256 == w % 256);
    }
    to_wire(wire)
}

/// Writing `mv` millivolts to a word register.
pub open spec fn write_word_spec(reg: WordRegister, mv: int) -> BusOp {
    BusOp::WriteWord { addr: reg.spec_addr(), word: swap_spec(encode_spec(mv) as u16) }
}

/// The transaction that stores `mv` millivolts in `reg`.
pub fn write_word_op(reg: WordRegister, mv: i32) -> (r: BusOp)
    ensures
        r == write_word_spec(reg, mv as int),
{
    BusOp::WriteWord { addr: reg.addr(), word: to_wire(encode(mv)) }
}

/// The transactions of `configure`: store the flags, then acknowledge both
/// latched alerts.
pub fn configure_ops(flags: u8) -> (r: Vec<BusOp>)
    ensures
        r@ == seq![
            BusOp::WriteByte { addr: REG_CONFIG, byte: flags },
            BusOp::WriteByte { addr: REG_STATUS, byte: 0x03 },
        ],
{
    let clear = clear_op(AlertClear::Both);
    vec![BusOp::WriteByte { addr: REG_CONFIG, byte: flags }, clear]
}

pub open spec fn clear_byte_spec(which: AlertClear) -> u8 {
    match which {
        AlertClear::Under => STATUS_UNDER,
        AlertClear::Over => STATUS_OVER,
        AlertClear::Both => 0x03,
    }
}

/// The transaction that acknowledges latched alerts.
pub fn clear_op(which: AlertClear) -> (r: BusOp)
    ensures
        r == (BusOp::WriteByte { addr: REG_STATUS, byte: clear_byte_spec(which) }),
{
    let byte: u8 = match which {
        AlertClear::Under => STATUS_UNDER,
        AlertClear::Over => STATUS_OVER,
        AlertClear::Both => 0x03,
    };
    BusOp::WriteByte { addr: REG_STATUS, byte }
}

/// The value register as transferred: millivolts and the alert flag.
pub fn value_from_wire(wire: u16) -> (r: (i32, bool))
    ensures
        r.0 as int == decode_spec(swap_spec(wire)),
        r.1 == alert_spec(swap_spec(wire)),
        0 <= r.0 <= 4095 * 16,
{
    decode(from_wire(wire))
}

/// A watermark or threshold register as transferred, in millivolts.
pub fn millivolts_from_wire(wire: u16) -> (r: i32)
    ensures
        r as int == decode_spec(swap_spec(wire)),
        0 <= r <= 4095 * 16,
{
    decode(from_wire(wire)).0
}

/// The latched alerts of a status byte: (over range, under range).
pub fn alert_flags(status: u8) -> (r: (bool, bool))
    ensures
        r.0 == (status as int / 2 % 2 == 1),
        r.1 == (status as int % 2 == 1),
{
    assert((status & 0x02 == 0x02) == (status / 2 % 2 == 1)) by (bit_vector);
    assert((status & 0x01 == 0x01) == (status % 2 == 1)) by (bit_vector);
    ((status & STATUS_OVER) == STATUS_OVER, (status & STATUS_UNDER) == STATUS_UNDER)
}

} // verus!
