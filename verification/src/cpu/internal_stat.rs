//! The CPU's execution state between two cycles of one instruction.

use super::bus::Transaction;
use vstd::prelude::*;

verus! {

/// Where the addressing stage of an instruction finds its operand.
#[derive(Debug, Clone, Copy, PartialEq, Eq, Structural)]
pub enum AddressingMode {
    Implied,
    Accumulator,
    Immediate,
    ZeroPage,
    ZeroPageX,
    ZeroPageY,
    Absolute,
    AbsoluteX,
    AbsoluteXRmw,
    AbsoluteY,
    AbsoluteYRmw,
    AbsoluteIndirect,
    IndexedIndirect,
    IndirectIndexed,
    IndirectIndexedRmw,
    Relative,
}

/// What the opcode stage of an instruction does.
#[derive(Debug, Clone, Copy, PartialEq, Eq, Structural)]
pub enum Opcode {
    Adc, And, Asl, AslAcc, Bcc, Bcs, Beq, Bit, Bmi, Bne, Bpl, Brk, Bvc, Bvs, Clc, Cld, Cli, Clv,
    Cmp, Cpx, Cpy, Dec, Dex, Dey, Eor, Inc, Inx, Iny, Jmp, Jsr, Lda, Ldx, Ldy, Lsr, LsrAcc, Nop,
    Ora, Pha, Php, Pla, Plp, Rol, RolAcc, Ror, RorAcc, Rti, Rts, Sbc, Sec, Sed, Sei, Sta, Stx,
    Sty, Tax, Tay, Tsx, Txa, Txs, Tya, Lax, Sax, Dcp, Isc, Slo, Rla, Sre, Rra, Anc, Alr, Arr,
    Axs, Xaa, Las, Tas, Ahx, Shx, Shy, Ign, Kil,
}

/// The micro-sequence that the next cycle continues.
#[derive(Debug, Clone, Copy, PartialEq, Eq, Structural)]
pub enum CpuStatesEnum {
    FetchOpCode,
    Reset,
    Irq,
    Mode(AddressingMode),
    Op(Opcode),
}

/// The opcode under execution, the micro-step inside the current sequence,
/// the effective address, a scratch byte, and two flags.
///
/// `crossed` says that the address computed last left its page; `interrupt`
/// keeps what a sequence saw of the interrupt lines when it began.
/// `last_read` is the address of the latest read and `last_write` says that
/// the latest access was a write: a stall repeats the one and is shorter
/// after the other. `last_written` is the address of the latest write and
/// `last_value` the byte that the latest access moved, so that the state
/// tells which access was made last: see [`InternalStat::latest`].
#[derive(Debug, Clone, Copy, PartialEq, Eq, Structural)]
pub struct InternalStat {
    pub state: CpuStatesEnum,
    pub opcode: u8,
    pub step: u8,
    pub address: u16,
    pub data: u8,
    pub crossed: bool,
    pub interrupt: bool,
    pub last_read: u16,
    pub last_write: bool,
    pub last_written: u16,
    pub last_value: u8,
}

impl InternalStat {
    /// The state in which the reset sequence is about to begin.
    pub fn new() -> (r: Self)
        ensures
            r == (InternalStat {
                state: CpuStatesEnum::Reset,
                opcode: 0,
                step: 0,
                address: 0,
                data: 0,
                crossed: false,
                interrupt: false,
                last_read: 0,
                last_write: false,
                last_written: 0,
                last_value: 0,
            }),
    {
        InternalStat {
            state: CpuStatesEnum::Reset,
            opcode: 0,
            step: 0,
            address: 0,
            data: 0,
            crossed: false,
            interrupt: false,
            last_read: 0,
            last_write: false,
            last_written: 0,
            last_value: 0,
        }
    }

    /// The access that was made last.
    pub open spec fn latest(self) -> Transaction {
        if self.last_write {
            Transaction::Write { address: self.last_written, value: self.last_value }
        } else {
            Transaction::Read { address: self.last_read, value: self.last_value }
        }
    }

    pub fn get_state(&self) -> (r: CpuStatesEnum)
        ensures
            r == self.state,
    {
        self.state
    }

    pub fn get_opcode(&self) -> (r: u8)
        ensures
            r == self.opcode,
    {
        self.opcode
    }

    pub fn get_step(&self) -> (r: u8)
        ensures
            r == self.step,
    {
        self.step
    }

    pub fn get_address(&self) -> (r: u16)
        ensures
            r == self.address,
    {
        self.address
    }

    pub fn get_data(&self) -> (r: u8)
        ensures
            r == self.data,
    {
        self.data
    }

    pub fn get_crossed(&self) -> (r: bool)
        ensures
            r == self.crossed,
    {
        self.crossed
    }

    pub fn get_interrupt(&self) -> (r: bool)
        ensures
            r == self.interrupt,
    {
        self.interrupt
    }

    pub fn get_last_read(&self) -> (r: u16)
        ensures
            r == self.last_read,
    {
        self.last_read
    }

    pub fn set_opcode(&mut self, value: u8)
        ensures
            *final(self) == (InternalStat { opcode: value, ..*old(self) }),
    {
        self.opcode = value;
    }

    pub fn set_address(&mut self, value: u16)
        ensures
            *final(self) == (InternalStat { address: value, ..*old(self) }),
    {
        self.address = value;
    }

    pub fn set_data(&mut self, value: u8)
        ensures
            *final(self) == (InternalStat { data: value, ..*old(self) }),
    {
        self.data = value;
    }

    pub fn set_crossed(&mut self, value: bool)
        ensures
            *final(self) == (InternalStat { crossed: value, ..*old(self) }),
    {
        self.crossed = value;
    }

    pub fn set_interrupt(&mut self, value: bool)
        ensures
            *final(self) == (InternalStat { interrupt: value, ..*old(self) }),
    {
        self.interrupt = value;
    }

    /// The access that was made last: see [`InternalStat::latest`].
    pub fn get_latest(&self) -> (r: Transaction)
        ensures
            r == self.latest(),
    {
        if self.last_write {
            Transaction::Write { address: self.last_written, value: self.last_value }
        } else {
            Transaction::Read { address: self.last_read, value: self.last_value }
        }
    }

    /// Notes a read of `address` that gave `value`.
    pub fn note_read(&mut self, address: u16, value: u8)
        ensures
            *final(self) == (InternalStat {
                last_read: address,
                last_write: false,
                last_value: value,
                ..*old(self)
            }),
            final(self).latest() == (Transaction::Read { address, value }),
    {
        self.last_read = address;
        self.last_write = false;
        self.last_value = value;
    }

    /// Notes a write of `value` to `address`.
    pub fn note_write(&mut self, address: u16, value: u8)
        ensures
            *final(self) == (InternalStat {
                last_write: true,
                last_written: address,
                last_value: value,
                ..*old(self)
            }),
            final(self).latest() == (Transaction::Write { address, value }),
    {
        self.last_write = true;
        self.last_written = address;
        self.last_value = value;
    }

    /// Moves the micro-step on by one.
    pub fn advance(&mut self)
        ensures
            *final(self) == (InternalStat { step: old(self).step.wrapping_add(1), ..*old(self) }),
    {
        self.step = self.step.wrapping_add(1);
    }

    /// Enters `state` at its first micro-step.
    pub fn enter(&mut self, state: CpuStatesEnum)
        ensures
            *final(self) == (InternalStat { state, step: 0, ..*old(self) }),
    {
        self.state = state;
        self.step = 0;
    }
}

} // verus!
