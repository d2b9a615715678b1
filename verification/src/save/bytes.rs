//! The bytes that stand for single values in a saved state.

use vstd::prelude::*;

verus! {

/// The byte that stands for a truth value: one for true, zero for false.
pub open spec fn bool_byte(value: bool) -> u8 {
    if value {
        1
    } else {
        0
    }
}

/// The 16-bit number that two bytes stand for, lowest first.
pub open spec fn word_of(low: u8, high: u8) -> u16 {
    (low + high * 256) as u16
}

/// The second of the two bytes that stand for a byte that may be
/// missing: the byte, or zero. The first says whether there is one.
pub open spec fn option_byte(value: Option<u8>) -> u8 {
    match value {
        Some(byte) => byte,
        None => 0,
    }
}

/// The byte, if any, that two bytes stand for.
pub open spec fn option_of(tag: u8, byte: u8) -> Option<u8> {
    if tag == 1 {
        Some(byte)
    } else {
        None
    }
}

pub fn byte_of_bool(value: bool) -> (r: u8)
    ensures
        r == bool_byte(value),
{
    if value {
        1
    } else {
        0
    }
}

pub fn make_word(low: u8, high: u8) -> (r: u16)
    ensures
        r == word_of(low, high),
{
    (low as u16) + (high as u16) * 256
}

pub fn byte_of_option(value: Option<u8>) -> (r: u8)
    ensures
        r == option_byte(value),
{
    match value {
        Some(byte) => byte,
        None => 0,
    }
}

pub fn make_option(tag: u8, byte: u8) -> (r: Option<u8>)
    ensures
        r == option_of(tag, byte),
{
    if tag == 1 {
        Some(byte)
    } else {
        None
    }
}

} // verus!
