//! The system-call interface on Cortex-M: the hardware pushes eight words on
//! the process's stack when the process stops, and the supervisor-call
//! instruction holds the number of the system call in its low byte.

use vstd::prelude::*;
use crate::memory::in_bounds;
use crate::memory::lemma_word_width;
use crate::memory::word_in;
use crate::memory::Memory;
use crate::memory::WORD_SIZE;
use crate::process::FunctionCall;
use crate::syscall::frame_slot;
use crate::syscall::ContextSwitchReason;
use crate::syscall::Syscall;
use crate::syscall::SyscallInterface;
use crate::syscall::FRAME_SIZE;

verus! {

/// The registers `r4` to `r11`, which the hardware does not save in the
/// frame.
#[derive(Clone, Copy, Debug, PartialEq, Eq, Structural)]
pub struct StoredRegs {
    pub r4: usize,
    pub r5: usize,
    pub r6: usize,
    pub r7: usize,
    pub r8: usize,
    pub r9: usize,
    pub r10: usize,
    pub r11: usize,
}

impl Default for StoredRegs {
    fn default() -> (r: StoredRegs)
        ensures
            r == (StoredRegs { r4: 0, r5: 0, r6: 0, r7: 0, r8: 0, r9: 0, r10: 0, r11: 0 }),
    {
        StoredRegs { r4: 0, r5: 0, r6: 0, r7: 0, r8: 0, r9: 0, r10: 0, r11: 0 }
    }
}

/// What the exception handlers note of why the process stopped: 1 for a
/// system call, 2 for a fault, anything else for neither.
pub open spec fn reason_of(process_state: usize) -> ContextSwitchReason {
    if process_state == 1 {
        ContextSwitchReason::SyscallFired
    } else if process_state == 2 {
        ContextSwitchReason::Fault
    } else {
        ContextSwitchReason::Other
    }
}

/// The system call with the given number, if there is one.
pub open spec fn syscall_of(number: u8) -> Option<Syscall> {
    if number == 0 {
        Some(Syscall::YIELD)
    } else if number == 1 {
        Some(Syscall::SUBSCRIBE)
    } else if number == 2 {
        Some(Syscall::COMMAND)
    } else if number == 3 {
        Some(Syscall::ALLOW)
    } else if number == 4 {
        Some(Syscall::MEMOP)
    } else {
        None
    }
}

/// The low byte of the two-byte instruction at `addr`, which lies in the
/// process's flash or else in its RAM; `None` where it lies in neither.
pub open spec fn instruction_low_byte(
    ram_base: int,
    ram: Seq<u8>,
    flash_base: int,
    flash: Seq<u8>,
    addr: int,
) -> Option<u8> {
    if in_bounds(flash_base, flash, addr, 2) {
        Some(flash[addr - flash_base])
    } else if in_bounds(ram_base, ram, addr, 2) {
        Some(ram[addr - ram_base])
    } else {
        None
    }
}

/// Whether bit `bit` of `word` is set.
pub open spec fn bit_set(word: u32, bit: u32) -> bool {
    (word >> bit) & 1 == 1
}

/// What the fault status registers say of a fault.
#[derive(Clone, Copy, Debug, PartialEq, Eq)]
pub struct FaultStatus {
    /// Instruction access violation.
    pub iaccviol: bool,
    /// Data access violation.
    pub daccviol: bool,
    /// Memory management fault on unstacking.
    pub munstkerr: bool,
    /// Memory management fault on stacking.
    pub mstkerr: bool,
    /// Memory management fault on lazy floating-point state preservation.
    pub mlsperr: bool,
    /// The memory management fault address register holds the address.
    pub mmfarvalid: bool,
    /// Instruction bus error.
    pub ibuserr: bool,
    /// Precise data bus error.
    pub preciserr: bool,
    /// Imprecise data bus error.
    pub impreciserr: bool,
    /// Bus fault on unstacking.
    pub unstkerr: bool,
    /// Bus fault on stacking.
    pub stkerr: bool,
    /// Bus fault on lazy floating-point state preservation.
    pub lsperr: bool,
    /// The bus fault address register holds the address.
    pub bfarvalid: bool,
    /// Undefined instruction.
    pub undefinstr: bool,
    /// Invalid state.
    pub invstate: bool,
    /// Invalid load of the program counter.
    pub invpc: bool,
    /// No coprocessor.
    pub nocp: bool,
    /// Unaligned access.
    pub unaligned: bool,
    /// Division by zero.
    pub divbysero: bool,
    /// Bus fault on a read of the vector table.
    pub vecttbl: bool,
    /// Forced hard fault.
    pub forced: bool,
    /// The address of the memory management fault.
    pub mmfar: u32,
    /// The address of the bus fault.
    pub bfar: u32,
    /// The configurable fault status register.
    pub cfsr: u32,
    /// The hard fault status register.
    pub hfsr: u32,
}

impl FaultStatus {
    /// Neither status register reports a fault.
    pub open spec fn no_faults(self) -> bool {
        self.cfsr == 0 && self.hfsr == 0
    }

    /// Whether neither status register reports a fault.
    pub fn no_faults_detected(&self) -> (r: bool)
        ensures
            r == self.no_faults(),
    {
        self.cfsr == 0 && self.hfsr == 0
    }
}

/// What the registers say of a fault: each flag is one bit of the
/// configurable fault status register `cfsr` or of the hard fault status
/// register `hfsr`.
pub open spec fn fault_status_of(cfsr: u32, hfsr: u32, mmfar: u32, bfar: u32) -> FaultStatus {
    FaultStatus {
        iaccviol: bit_set(cfsr, 0),
        daccviol: bit_set(cfsr, 1),
        munstkerr: bit_set(cfsr, 3),
        mstkerr: bit_set(cfsr, 4),
        mlsperr: bit_set(cfsr, 5),
        mmfarvalid: bit_set(cfsr, 7),
        ibuserr: bit_set(cfsr, 8),
        preciserr: bit_set(cfsr, 9),
        impreciserr: bit_set(cfsr, 10),
        unstkerr: bit_set(cfsr, 11),
        stkerr: bit_set(cfsr, 12),
        lsperr: bit_set(cfsr, 13),
        bfarvalid: bit_set(cfsr, 15),
        undefinstr: bit_set(cfsr, 16),
        invstate: bit_set(cfsr, 17),
        invpc: bit_set(cfsr, 18),
        nocp: bit_set(cfsr, 19),
        unaligned: bit_set(cfsr, 24),
        divbysero: bit_set(cfsr, 25),
        vecttbl: bit_set(hfsr, 1),
        forced: bit_set(hfsr, 30),
        mmfar,
        bfar,
        cfsr,
        hfsr,
    }
}

/// Reads the fault off the registers that the fault handler has saved: the
/// configuration and control register, the two status registers and the two
/// fault address registers, in this order.
pub fn fault_status(scb_registers: &[u32; 5]) -> (r: FaultStatus)
    ensures
        r == fault_status_of(scb_registers[1], scb_registers[2], scb_registers[3], scb_registers[4]),
{
    let cfsr = scb_registers[1];
    let hfsr = scb_registers[2];
    let mmfar = scb_registers[3];
    let bfar = scb_registers[4];
    assert(((cfsr & 0x01) == 0x01) == bit_set(cfsr, 0) && ((cfsr & 0x02) == 0x02) == bit_set(cfsr, 1)
        && ((cfsr & 0x08) == 0x08) == bit_set(cfsr, 3) && ((cfsr & 0x10) == 0x10) == bit_set(
        cfsr,
        4,
    ) && ((cfsr & 0x20) == 0x20) == bit_set(cfsr, 5) && ((cfsr & 0x80) == 0x80) == bit_set(cfsr, 7))
        by (bit_vector);
    assert((((cfsr >> 8) & 0x01) == 0x01) == bit_set(cfsr, 8) && (((cfsr >> 8) & 0x02) == 0x02)
        == bit_set(cfsr, 9) && (((cfsr >> 8) & 0x04) == 0x04) == bit_set(cfsr, 10) && (((cfsr >> 8)
        & 0x08) == 0x08) == bit_set(cfsr, 11) && (((cfsr >> 8) & 0x10) == 0x10) == bit_set(cfsr, 12)
        && (((cfsr >> 8) & 0x20) == 0x20) == bit_set(cfsr, 13) && (((cfsr >> 8) & 0x80) == 0x80)
        == bit_set(cfsr, 15)) by (bit_vector);
    assert((((cfsr >> 16) & 0x01) == 0x01) == bit_set(cfsr, 16) && (((cfsr >> 16) & 0x02) == 0x02)
        == bit_set(cfsr, 17) && (((cfsr >> 16) & 0x04) == 0x04) == bit_set(cfsr, 18) && (((cfsr
        >> 16) & 0x08) == 0x08) == bit_set(cfsr, 19) && (((cfsr >> 16) & 0x100) == 0x100)
        == bit_set(cfsr, 24) && (((cfsr >> 16) & 0x200) == 0x200) == bit_set(cfsr, 25))
        by (bit_vector);
    assert(((hfsr & 0x02) == 0x02) == bit_set(hfsr, 1) && ((hfsr & 0x40000000) == 0x40000000)
        == bit_set(hfsr, 30)) by (bit_vector);
    FaultStatus {
        iaccviol: (cfsr & 0x01) == 0x01,
        daccviol: (cfsr & 0x02) == 0x02,
        munstkerr: (cfsr & 0x08) == 0x08,
        mstkerr: (cfsr & 0x10) == 0x10,
        mlsperr: (cfsr & 0x20) == 0x20,
        mmfarvalid: (cfsr & 0x80) == 0x80,
        ibuserr: ((cfsr >> 8) & 0x01) == 0x01,
        preciserr: ((cfsr >> 8) & 0x02) == 0x02,
        impreciserr: ((cfsr >> 8) & 0x04) == 0x04,
        unstkerr: ((cfsr >> 8) & 0x08) == 0x08,
        stkerr: ((cfsr >> 8) & 0x10) == 0x10,
        lsperr: ((cfsr >> 8) & 0x20) == 0x20,
        bfarvalid: ((cfsr >> 8) & 0x80) == 0x80,
        undefinstr: ((cfsr >> 16) & 0x01) == 0x01,
        invstate: ((cfsr >> 16) & 0x02) == 0x02,
        invpc: ((cfsr >> 16) & 0x04) == 0x04,
        nocp: ((cfsr >> 16) & 0x08) == 0x08,
        unaligned: ((cfsr >> 16) & 0x100) == 0x100,
        divbysero: ((cfsr >> 16) & 0x200) == 0x200,
        vecttbl: (hfsr & 0x02) == 0x02,
        forced: (hfsr & 0x40000000) == 0x40000000,
        mmfar,
        bfar,
        cfsr,
        hfsr,
    }
}

/// The registers that the hardware saves in the frame on the process's
/// stack when the process stops.
#[derive(Clone, Copy, Debug, PartialEq, Eq)]
pub struct ExceptionFrame {
    pub r0: usize,
    pub r1: usize,
    pub r2: usize,
    pub r3: usize,
    pub r12: usize,
    pub lr: usize,
    pub pc: usize,
    pub xpsr: usize,
}

/// The frame at `sp` in the memory that starts at `base` and holds `bytes`.
pub open spec fn frame_at(base: int, bytes: Seq<u8>, sp: int) -> ExceptionFrame {
    ExceptionFrame {
        r0: word_in(base, bytes, frame_slot(sp, 0)),
        r1: word_in(base, bytes, frame_slot(sp, 1)),
        r2: word_in(base, bytes, frame_slot(sp, 2)),
        r3: word_in(base, bytes, frame_slot(sp, 3)),
        r12: word_in(base, bytes, frame_slot(sp, 4)),
        lr: word_in(base, bytes, frame_slot(sp, 5)),
        pc: word_in(base, bytes, frame_slot(sp, 6)),
        xpsr: word_in(base, bytes, frame_slot(sp, 7)),
    }
}

/// Reads the frame at `sp`.
pub fn read_frame(ram: &Memory, sp: usize) -> (r: ExceptionFrame)
    requires
        ram.wf(),
        ram.contains_range(sp as int, FRAME_SIZE as int),
    ensures
        r == frame_at(ram.base() as int, ram@, sp as int),
{
    proof {
        lemma_word_width();
    }
    ExceptionFrame {
        r0: ram.read_word(sp),
        r1: ram.read_word(sp + WORD_SIZE),
        r2: ram.read_word(sp + 2 * WORD_SIZE),
        r3: ram.read_word(sp + 3 * WORD_SIZE),
        r12: ram.read_word(sp + 4 * WORD_SIZE),
        lr: ram.read_word(sp + 5 * WORD_SIZE),
        pc: ram.read_word(sp + 6 * WORD_SIZE),
        xpsr: ram.read_word(sp + 7 * WORD_SIZE),
    }
}

/// Bit `bit` of the status word `xpsr`, as 0 or 1.
pub open spec fn status_bit(xpsr: usize, bit: usize) -> usize {
    (xpsr >> bit) & 1
}

/// What a program status word says.
#[derive(Clone, Copy, Debug, PartialEq, Eq)]
pub struct StatusWord {
    /// The negative flag.
    pub n: usize,
    /// The zero flag.
    pub z: usize,
    /// The carry flag.
    pub c: usize,
    /// The overflow flag.
    pub v: usize,
    /// The saturation flag.
    pub q: usize,
    /// The greater-than-or-equal flags, bit 19 first.
    pub ge: (usize, usize, usize, usize),
    /// The state of an interrupted multiple load or store, or of an
    /// if-then block.
    pub ici_it: usize,
    /// Whether the processor was in Thumb state, which Cortex-M demands.
    pub thumb_bit: bool,
}

/// What the status word `xpsr` says: each flag is one bit of it, and
/// `ici_it` is put together from bits 26 and 25 and bits 15 to 10.
pub open spec fn status_word_of(xpsr: usize) -> StatusWord {
    StatusWord {
        n: status_bit(xpsr, 31),
        z: status_bit(xpsr, 30),
        c: status_bit(xpsr, 29),
        v: status_bit(xpsr, 28),
        q: status_bit(xpsr, 27),
        ge: (
            status_bit(xpsr, 19),
            status_bit(xpsr, 18),
            status_bit(xpsr, 17),
            status_bit(xpsr, 16),
        ),
        ici_it: (((xpsr >> 25) & 0x3) << 6) | ((xpsr >> 10) & 0x3f),
        thumb_bit: status_bit(xpsr, 24) == 1,
    }
}

/// Reads a program status word.
pub fn status_word(xpsr: usize) -> (r: StatusWord)
    ensures
        r == status_word_of(xpsr),
{
    StatusWord {
        n: (xpsr >> 31) & 0x1,
        z: (xpsr >> 30) & 0x1,
        c: (xpsr >> 29) & 0x1,
        v: (xpsr >> 28) & 0x1,
        q: (xpsr >> 27) & 0x1,
        ge: ((xpsr >> 19) & 0x1, (xpsr >> 18) & 0x1, (xpsr >> 17) & 0x1, (xpsr >> 16) & 0x1),
        ici_it: (((xpsr >> 25) & 0x3) << 6) | ((xpsr >> 10) & 0x3f),
        thumb_bit: ((xpsr >> 24) & 0x1) == 1,
    }
}

/// The per-process state of the system-call interface.
pub struct SysCall {
    /// Where a callback returns to: the return address of the last yield.
    yield_pc: usize,
    /// The status word saved at the last yield.
    psr: usize,
    /// What the exception handlers noted when the process last stopped.
    process_state: usize,
}

impl SysCall {
    /// Takes note of the word that the exception handlers wrote when the
    /// process stopped.
    pub fn set_process_state(&mut self, process_state: usize)
        ensures
            final(self).pending_reason() == reason_of(process_state),
            final(self).yield_pc() == old(self).yield_pc(),
            final(self).psr() == old(self).psr(),
    {
        self.process_state = process_state;
    }

}

impl SyscallInterface for SysCall {
    type StoredState = StoredRegs;

    closed spec fn yield_pc(&self) -> usize {
        self.yield_pc
    }

    closed spec fn psr(&self) -> usize {
        self.psr
    }

    closed spec fn pending_reason(&self) -> ContextSwitchReason {
        reason_of(self.process_state)
    }

    open spec fn syscall_number(
        ram_base: int,
        ram: Seq<u8>,
        flash_base: int,
        flash: Seq<u8>,
        sp: int,
    ) -> Option<Syscall> {
        let pc = word_in(ram_base, ram, frame_slot(sp, 6));
        match instruction_low_byte(ram_base, ram, flash_base, flash, pc - 2) {
            Some(number) => syscall_of(number),
            None => None,
        }
    }

    open spec fn initial_stored_state_spec() -> StoredRegs {
        StoredRegs { r4: 0, r5: 0, r6: 0, r7: 0, r8: 0, r9: 0, r10: 0, r11: 0 }
    }

    fn new() -> (r: SysCall) {
        SysCall { yield_pc: 0, psr: 0x0100_0000, process_state: 0 }
    }

    fn initial_stored_state() -> (r: StoredRegs) {
        StoredRegs::default()
    }

    fn saved_yield_pc(&self) -> (r: usize) {
        self.yield_pc
    }

    fn saved_psr(&self) -> (r: usize) {
        self.psr
    }

    fn get_context_switch_reason(&mut self) -> (r: ContextSwitchReason) {
        let state = self.process_state;
        self.process_state = 0;
        if state == 1 {
            ContextSwitchReason::SyscallFired
        } else if state == 2 {
            ContextSwitchReason::Fault
        } else {
            ContextSwitchReason::Other
        }
    }

    fn get_syscall_number(&self, ram: &Memory, flash: &Memory, sp: usize) -> (r: Option<Syscall>) {
        proof {
            lemma_word_width();
        }
        let pc = ram.read_word(sp + 6 * WORD_SIZE);
        if pc < 2 {
            return None;
        }
        let addr = pc - 2;
        let number = if flash.in_range(addr, 2) {
            flash.read_byte(addr)
        } else if ram.in_range(addr, 2) {
            ram.read_byte(addr)
        } else {
            return None;
        };
        if number == 0 {
            Some(Syscall::YIELD)
        } else if number == 1 {
            Some(Syscall::SUBSCRIBE)
        } else if number == 2 {
            Some(Syscall::COMMAND)
        } else if number == 3 {
            Some(Syscall::ALLOW)
        } else if number == 4 {
            Some(Syscall::MEMOP)
        } else {
            None
        }
    }

    fn get_syscall_data(&self, ram: &Memory, sp: usize) -> (r: (usize, usize, usize, usize)) {
        proof {
            lemma_word_width();
        }
        let r0 = ram.read_word(sp);
        let r1 = ram.read_word(sp + WORD_SIZE);
        let r2 = ram.read_word(sp + 2 * WORD_SIZE);
        let r3 = ram.read_word(sp + 3 * WORD_SIZE);
        (r0, r1, r2, r3)
    }

    fn set_syscall_return_value(&self, ram: &mut Memory, sp: usize, return_value: isize) {
        proof {
            lemma_word_width();
        }
        ram.write_word(sp, return_value as usize);
    }

    fn pop_syscall_stack(&mut self, ram: &Memory, sp: usize) -> (new_sp: usize) {
        proof {
            lemma_word_width();
        }
        self.yield_pc = ram.read_word(sp + 6 * WORD_SIZE);
        self.psr = ram.read_word(sp + 7 * WORD_SIZE);
        sp + 8 * WORD_SIZE
    }

    fn push_function_call(&self, ram: &mut Memory, sp: usize, callback: FunctionCall) -> (new_sp:
        usize) {
        proof {
            lemma_word_width();
        }
        let stack_bottom = sp - 8 * WORD_SIZE;
        ram.write_word(stack_bottom + 7 * WORD_SIZE, self.psr);
        ram.write_word(stack_bottom + 6 * WORD_SIZE, callback.pc | 1);
        ram.write_word(stack_bottom + 5 * WORD_SIZE, self.yield_pc | 1);
        ram.write_word(stack_bottom, callback.r0);
        ram.write_word(stack_bottom + WORD_SIZE, callback.r1);
        ram.write_word(stack_bottom + 2 * WORD_SIZE, callback.r2);
        ram.write_word(stack_bottom + 3 * WORD_SIZE, callback.r3);
        stack_bottom
    }

    fn reset(&mut self, yield_pc: usize) {
        self.yield_pc = yield_pc;
        self.psr = 0x0100_0000;
    }
}

} // verus!
