//! Loads of the accumulator and the index registers.

use crate::cpu::bus::Bus;
use crate::cpu::register::Register;
use crate::cpu::{
    exit_opcode, leave_opcode, one_access_or_none, read, read_spec, Core, CpuStepStateEnum,
};
use vstd::prelude::*;

verus! {

/// An operation of one cycle that loads a register with its operand and
/// sets zero and negative from it.
pub trait Load: Sized {
    /// The registers after `value` went to the register that is loaded.
    spec fn setter_spec(register: Register, value: u8) -> Register;

    fn setter(register: &mut Register, value: u8)
        ensures
            *final(register) == Self::setter_spec(*old(register), value),
    ;

    fn exec_opcode<B: Bus>(core: &mut Core, bus: &mut B) -> (r: CpuStepStateEnum)
        ensures
            old(core).internal_stat.step == 1 ==> ({
                let (c, b, value) = read_spec::<B>(*old(core), old(bus)@, old(core).internal_stat.address);
                &&& *final(core) == (Core {
                    register: Self::setter_spec(c.register.with_nz(value), value),
                    ..c
                })
                &&& final(bus)@ == b
                &&& r == CpuStepStateEnum::Continue
            }),
            old(core).internal_stat.step != 1 ==> (*final(core), final(bus)@, r) == leave_opcode::<B>(
                *old(core),
                old(bus)@,
            ),
            one_access_or_none(*old(bus), *final(bus), *final(core), r),
    {
        match core.internal_stat.get_step() {
            1 => {
                let address = core.internal_stat.get_address();
                let value = read(core, bus, address);
                core.register.set_nz_from_value(value);
                Self::setter(&mut core.register, value);
            },
            _ => {
                return exit_opcode(core);
            },
        }
        CpuStepStateEnum::Continue
    }
}

/// One attempt at a cycle of the load `L`.
pub open spec fn load_opcode_spec<L: Load, B: Bus>(core: Core, bus: B::V) -> (
    Core,
    B::V,
    CpuStepStateEnum,
) {
    match core.internal_stat.step {
        1 => {
            let (c, b, value) = read_spec::<B>(core, bus, core.internal_stat.address);
            (
                Core { register: L::setter_spec(c.register.with_nz(value), value), ..c },
                b,
                CpuStepStateEnum::Continue,
            )
        },
        _ => leave_opcode::<B>(core, bus),
    }
}

/// Loads the accumulator.
pub struct Lda;

impl Lda {
    pub fn new() -> Self {
        Self
    }
}

impl Load for Lda {
    open spec fn setter_spec(register: Register, value: u8) -> Register {
        Register { a: value, ..register }
    }

    fn setter(register: &mut Register, value: u8) {
        register.set_a(value);
    }
}

/// Loads X.
pub struct Ldx;

impl Ldx {
    pub fn new() -> Self {
        Self
    }
}

impl Load for Ldx {
    open spec fn setter_spec(register: Register, value: u8) -> Register {
        Register { x: value, ..register }
    }

    fn setter(register: &mut Register, value: u8) {
        register.set_x(value);
    }
}

/// Loads Y.
pub struct Ldy;

impl Ldy {
    pub fn new() -> Self {
        Self
    }
}

impl Load for Ldy {
    open spec fn setter_spec(register: Register, value: u8) -> Register {
        Register { y: value, ..register }
    }

    fn setter(register: &mut Register, value: u8) {
        register.set_y(value);
    }
}

} // verus!
