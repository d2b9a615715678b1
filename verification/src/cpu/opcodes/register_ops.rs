//! Operations on the registers alone: flag changes, transfers, and the
//! counting of X and Y.

use crate::cpu::bus::Bus;
use crate::cpu::register::Register;
use crate::cpu::{
    exit_opcode, leave_opcode, one_access_or_none, read_dummy_current,
    read_dummy_current_spec, Core, CpuStepStateEnum,
};
use vstd::prelude::*;

verus! {

/// An operation of one cycle that reads at the program counter, drops the
/// byte, and changes the registers.
pub trait Operate: Sized {
    /// The registers after the operation.
    spec fn operate_spec(register: Register) -> Register;

    fn operate(register: &mut Register)
        ensures
            *final(register) == Self::operate_spec(*old(register)),
    ;

    fn exec_opcode<B: Bus>(core: &mut Core, bus: &mut B) -> (r: CpuStepStateEnum)
        ensures
            old(core).internal_stat.step == 1 ==> ({
                let (c, b) = read_dummy_current_spec::<B>(*old(core), old(bus)@);
                &&& *final(core) == (Core { register: Self::operate_spec(c.register), ..c })
                &&& final(bus)@ == b
                &&& r == CpuStepStateEnum::Continue
            }),
            old(core).internal_stat.step != 1 ==> (*final(core), final(bus)@, r) == leave_opcode::<B>(
                *old(core),
                old(bus)@,
            ),
            one_access_or_none(*old(bus), *final(bus), *final(core), r),
    {
        match core.internal_stat.get_step() {
            1 => {
                read_dummy_current(core, bus);
                Self::operate(&mut core.register);
            },
            _ => {
                return exit_opcode(core);
            },
        }
        CpuStepStateEnum::Continue
    }
}

/// One attempt at a cycle of the register operation `O`.
pub open spec fn operate_opcode_spec<O: Operate, B: Bus>(core: Core, bus: B::V) -> (
    Core,
    B::V,
    CpuStepStateEnum,
) {
    match core.internal_stat.step {
        1 => {
            let (c, b) = read_dummy_current_spec::<B>(core, bus);
            (Core { register: O::operate_spec(c.register), ..c }, b, CpuStepStateEnum::Continue)
        },
        _ => leave_opcode::<B>(core, bus),
    }
}

/// Clears carry.
pub struct Clc;

impl Operate for Clc {
    open spec fn operate_spec(register: Register) -> Register {
        Register { c: false, ..register }
    }

    fn operate(register: &mut Register) {
        register.set_c(false);
    }
}

/// Sets carry.
pub struct Sec;

impl Operate for Sec {
    open spec fn operate_spec(register: Register) -> Register {
        Register { c: true, ..register }
    }

    fn operate(register: &mut Register) {
        register.set_c(true);
    }
}

/// Clears interrupt-disable.
pub struct Cli;

impl Operate for Cli {
    open spec fn operate_spec(register: Register) -> Register {
        Register { i: false, ..register }
    }

    fn operate(register: &mut Register) {
        register.set_i(false);
    }
}

/// Sets interrupt-disable.
pub struct Sei;

impl Operate for Sei {
    open spec fn operate_spec(register: Register) -> Register {
        Register { i: true, ..register }
    }

    fn operate(register: &mut Register) {
        register.set_i(true);
    }
}

/// Clears the decimal flag.
pub struct Cld;

impl Operate for Cld {
    open spec fn operate_spec(register: Register) -> Register {
        Register { d: false, ..register }
    }

    fn operate(register: &mut Register) {
        register.set_d(false);
    }
}

/// Sets the decimal flag.
pub struct Sed;

impl Operate for Sed {
    open spec fn operate_spec(register: Register) -> Register {
        Register { d: true, ..register }
    }

    fn operate(register: &mut Register) {
        register.set_d(true);
    }
}

/// Clears overflow.
pub struct Clv;

impl Operate for Clv {
    open spec fn operate_spec(register: Register) -> Register {
        Register { v: false, ..register }
    }

    fn operate(register: &mut Register) {
        register.set_v(false);
    }
}

/// Copies the accumulator to X.
pub struct Tax;

impl Operate for Tax {
    open spec fn operate_spec(register: Register) -> Register {
        Register { x: register.a, ..register }.with_nz(register.a)
    }

    fn operate(register: &mut Register) {
        let value = register.get_a();
        register.set_x(value);
        register.set_nz_from_value(value);
    }
}

/// Copies the accumulator to Y.
pub struct Tay;

impl Operate for Tay {
    open spec fn operate_spec(register: Register) -> Register {
        Register { y: register.a, ..register }.with_nz(register.a)
    }

    fn operate(register: &mut Register) {
        let value = register.get_a();
        register.set_y(value);
        register.set_nz_from_value(value);
    }
}

/// Copies X to the accumulator.
pub struct Txa;

impl Operate for Txa {
    open spec fn operate_spec(register: Register) -> Register {
        Register { a: register.x, ..register }.with_nz(register.x)
    }

    fn operate(register: &mut Register) {
        let value = register.get_x();
        register.set_a(value);
        register.set_nz_from_value(value);
    }
}

/// Copies Y to the accumulator.
pub struct Tya;

impl Operate for Tya {
    open spec fn operate_spec(register: Register) -> Register {
        Register { a: register.y, ..register }.with_nz(register.y)
    }

    fn operate(register: &mut Register) {
        let value = register.get_y();
        register.set_a(value);
        register.set_nz_from_value(value);
    }
}

/// Copies the stack pointer to X.
pub struct Tsx;

impl Operate for Tsx {
    open spec fn operate_spec(register: Register) -> Register {
        Register { x: register.sp, ..register }.with_nz(register.sp)
    }

    fn operate(register: &mut Register) {
        let value = register.get_sp();
        register.set_x(value);
        register.set_nz_from_value(value);
    }
}

/// Copies X to the stack pointer; no flag changes.
pub struct Txs;

impl Operate for Txs {
    open spec fn operate_spec(register: Register) -> Register {
        Register { sp: register.x, ..register }
    }

    fn operate(register: &mut Register) {
        let value = register.get_x();
        register.set_sp(value);
    }
}

/// Adds one to X, wrapping.
pub struct Inx;

impl Operate for Inx {
    open spec fn operate_spec(register: Register) -> Register {
        Register {
            x: register.x.wrapping_add(1),
            ..register
        }.with_nz(register.x.wrapping_add(1))
    }

    fn operate(register: &mut Register) {
        let value = register.get_x().wrapping_add(1);
        register.set_x(value);
        register.set_nz_from_value(value);
    }
}

/// Adds one to Y, wrapping.
pub struct Iny;

impl Operate for Iny {
    open spec fn operate_spec(register: Register) -> Register {
        Register {
            y: register.y.wrapping_add(1),
            ..register
        }.with_nz(register.y.wrapping_add(1))
    }

    fn operate(register: &mut Register) {
        let value = register.get_y().wrapping_add(1);
        register.set_y(value);
        register.set_nz_from_value(value);
    }
}

/// Subtracts one from X, wrapping.
pub struct Dex;

impl Operate for Dex {
    open spec fn operate_spec(register: Register) -> Register {
        Register {
            x: register.x.wrapping_sub(1),
            ..register
        }.with_nz(register.x.wrapping_sub(1))
    }

    fn operate(register: &mut Register) {
        let value = register.get_x().wrapping_sub(1);
        register.set_x(value);
        register.set_nz_from_value(value);
    }
}

/// Subtracts one from Y, wrapping.
pub struct Dey;

impl Operate for Dey {
    open spec fn operate_spec(register: Register) -> Register {
        Register {
            y: register.y.wrapping_sub(1),
            ..register
        }.with_nz(register.y.wrapping_sub(1))
    }

    fn operate(register: &mut Register) {
        let value = register.get_y().wrapping_sub(1);
        register.set_y(value);
        register.set_nz_from_value(value);
    }
}

} // verus!
