//! Byte memories whose every index answers: reads outside find zero,
//! writes outside are dropped.

use vstd::prelude::*;

verus! {

/// The byte of `memory` at `index`, zero outside.
pub open spec fn byte_at(memory: Seq<u8>, index: int) -> u8 {
    if 0 <= index < memory.len() {
        memory[index]
    } else {
        0
    }
}

/// `memory` with `value` at `index`, unchanged if `index` lies outside.
pub open spec fn stored(memory: Seq<u8>, index: int, value: u8) -> Seq<u8> {
    if 0 <= index < memory.len() {
        memory.update(index, value)
    } else {
        memory
    }
}

pub fn load(memory: &Vec<u8>, index: usize) -> (value: u8)
    ensures
        value == byte_at(memory@, index as int),
{
    if index < memory.len() {
        memory[index]
    } else {
        0
    }
}

pub fn store(memory: &mut Vec<u8>, index: usize, value: u8)
    ensures
        final(memory)@ == stored(old(memory)@, index as int, value),
{
    if index < memory.len() {
        memory.set(index, value);
    }
}

/// A memory of `size` bytes, all `value`.
pub open spec fn filled(size: nat, value: u8) -> Seq<u8> {
    Seq::new(size, |i: int| value)
}

pub fn fill(size: usize, value: u8) -> (memory: Vec<u8>)
    ensures
        memory@ == filled(size as nat, value),
{
    let memory = vec![value; size];
    proof {
        assert(memory@ =~= filled(size as nat, value));
    }
    memory
}

} // verus!
