//! Conversion between millivolts and twelve-bit register words.
use vstd::prelude::*;

verus! {

/// Millivolts in one step of the device's magnitude field.
pub const SCALE_MV: i32 = 16;

/// The magnitude field: bits 0 to 11 of a register word.
pub const MAGNITUDE_MASK: u16 = 0x0FFF;

/// The latched-alert flag: bit 15 of the value register.
pub const ALERT_BIT: u16 = 0x8000;

/// `mv / 16` rounded to the nearest integer, halves away from zero.
pub open spec fn round_steps(mv: int) -> int {
    if mv >= 0 {
        (mv + 8) / 16
    } else {
        -((8 - mv) / 16)
    }
}

/// The register word for `mv` millivolts: the rounded step count, wrapped
/// into the twelve-bit field.
pub open spec fn encode_spec(mv: int) -> int {
    round_steps(mv) % 4096
}

/// The magnitude field of a word.
pub open spec fn magnitude(w: u16) -> int {
    w as int % 4096
}

/// Millivolts that a word's magnitude field stands for.
pub open spec fn decode_spec(w: u16) -> int {
    magnitude(w) * 16
}

/// Whether a word carries the alert flag.
pub open spec fn alert_spec(w: u16) -> bool {
    w as int >= 0x8000
}

/// Encodes `mv` millivolts as a register word. Values outside the field's
/// range are not refused: they wrap modulo 4096 steps.
pub fn encode(mv: i32) -> (raw: u16)
    ensures
        raw as int == encode_spec(mv as int),
        raw <= MAGNITUDE_MASK,
{
    let m: i64 = mv as i64;
    if m >= 0 {
        let steps: u64 = ((m + 8) / 16) as u64;
        (steps % 4096) as u16
    } else {
        let steps: u64 = ((8 - m) / 16) as u64;
        let rem: u64 = steps % 4096;
        proof {
            let k = steps as int;
            assert(round_steps(mv as int) == -k);
            lemma_neg_mod(k);
        }
        if rem == 0 {
            0
        } else {
            (4096 - rem) as u16
        }
    }
}

proof fn lemma_neg_mod(k: int)
    requires
        k >= 0,
    ensures
        (-k) % 4096 == (if k % 4096 == 0 { 0 } else { 4096 - k % 4096 }),
{
    vstd::arithmetic::div_mod::lemma_fundamental_div_mod(k, 4096);
    let q = k / 4096;
    let r = k % 4096;
    if r == 0 {
        vstd::arithmetic::div_mod::lemma_mod_multiples_basic(-q, 4096);
        assert(-k == (-q) * 4096);
    } else {
        assert(-k == (-q - 1) * 4096 + (4096 - r));
        vstd::arithmetic::div_mod::lemma_fundamental_div_mod_converse(-k, 4096, -q - 1, 4096 - r);
    }
}

/// Splits a register word into millivolts (from the magnitude field) and
/// the alert flag (bit 15).
pub fn decode(raw: u16) -> (r: (i32, bool))
    ensures
        r.0 as int == decode_spec(raw),
        r.1 == alert_spec(raw),
        0 <= r.0 <= 4095 * 16,
{
    let field: u16 = raw & MAGNITUDE_MASK;
    assert(raw & 0x0FFF == raw % 4096) by (bit_vector);
    assert((raw & 0x8000 == 0x8000) == (raw >= 0x8000)) by (bit_vector);
    let alert: bool = (raw & ALERT_BIT) == ALERT_BIT;
    ((field as i32) * SCALE_MV, alert)
}

/// Decoding the encoding of a value inside the field's range gives the value
/// back to within half a step.
pub proof fn lemma_decode_encode(mv: int)
    requires
        0 <= mv <= 4095 * 16,
    ensures
        0 <= encode_spec(mv) < 0x10000,
        -8 <= decode_spec(encode_spec(mv) as u16) - mv <= 8,
{
    let s = round_steps(mv);
    assert(0 <= s <= 4095);
    vstd::arithmetic::div_mod::lemma_small_mod(s as nat, 4096);
    assert(encode_spec(mv) == s);
    assert(magnitude(s as u16) == s);
}

/// Encoding the value of any word gives back its magnitude field; the alert
/// flag comes out of `decode` separately, as bit 15 alone.
pub proof fn lemma_encode_decode(w: u16)
    ensures
        encode_spec(decode_spec(w)) == magnitude(w),
        magnitude(w) == (w & MAGNITUDE_MASK) as int,
        alert_spec(w) == (w & ALERT_BIT == ALERT_BIT),
        alert_spec(w) == alert_spec(w & 0x8FFF),
{
    assert(w & 0x0FFF == w % 4096) by (bit_vector);
    assert((w & 0x8000 == 0x8000) == (w >= 0x8000)) by (bit_vector);
    assert((w >= 0x8000) == ((w & 0x8FFF) >= 0x8000)) by (bit_vector);
    let m = magnitude(w);
    assert(round_steps(m * 16) == m);
    vstd::arithmetic::div_mod::lemma_small_mod(m as nat, 4096);
}

} // verus!
