//! CPU exception vectoring: the pure mapping from an exception kind to the
//! vector address, link-register value and processor-status update that
//! delivering it applies. The embedding program performs the actual
//! register writes on the CPU engine; this module computes the values.
use vstd::prelude::*;

use crate::device::{ExtraState, QuitDetail, StopReasonKind};

verus! {

/// Base address of the exception handler trampolines. The chip keeps them
/// in the bootrom mapping, which this emulation places at the top of the
/// address space.
pub const VECTOR_BASE: u64 = 0xff000000;

/// Highest program-counter value the 32-bit CPU can report.
pub const PC_LIMIT: u64 = 0xffffffff;

/// The seven CPU exception kinds.
#[derive(Debug, Clone, Copy, PartialEq, Eq, Structural)]
pub enum ExceptionType {
    Reset,
    UndefinedInstruction,
    SupervisorCall,
    PrefetchAbort,
    DataAbort,
    IRQ,
    FIQ,
}

impl ExceptionType {
    /// The fixed offset of this exception's vector-table slot.
    pub open spec fn spec_vector_offset(self) -> u64 {
        match self {
            ExceptionType::Reset => 0x0,
            ExceptionType::UndefinedInstruction => 0x4,
            ExceptionType::SupervisorCall => 0x8,
            ExceptionType::PrefetchAbort => 0xc,
            ExceptionType::DataAbort => 0x10,
            ExceptionType::IRQ => 0x18,
            ExceptionType::FIQ => 0x1c,
        }
    }

    /// The link-register adjustment relative to the reported program
    /// counter: the resume point for the ordinary kinds, the faulting
    /// instruction plus 4 or 8 for the aborts, and unused for reset. The
    /// offsets assume the CPU engine reports the unexecuted instruction
    /// (and, for a supervisor call, already the next instruction).
    pub open spec fn spec_link_offset(self) -> u64 {
        match self {
            ExceptionType::Reset => 0,
            ExceptionType::UndefinedInstruction => 4,
            ExceptionType::SupervisorCall => 0,
            ExceptionType::PrefetchAbort => 4,
            ExceptionType::DataAbort => 8,
            ExceptionType::IRQ => 4,
            ExceptionType::FIQ => 4,
        }
    }

    /// The low six status-register bits after delivery: the exception's
    /// target processor mode with the appropriate interrupt masks.
    pub open spec fn spec_mode_bits(self) -> u64 {
        match self {
            ExceptionType::Reset => 0b11010011,  // supervisor, no interrupts
            ExceptionType::UndefinedInstruction => 0b10011011,  // undefined, no IRQ
            ExceptionType::SupervisorCall => 0b10010011,  // supervisor, no IRQ
            ExceptionType::PrefetchAbort => 0b10010111,  // abort, no IRQ
            ExceptionType::DataAbort => 0b10010111,  // abort, no IRQ
            ExceptionType::IRQ => 0b10010010,  // IRQ mode, no IRQ
            ExceptionType::FIQ => 0b11010001,  // FIQ mode, no interrupts
        }
    }

    /// The address of this exception's handler trampoline.
    pub fn to_vector_address(self) -> (r: u64)
        ensures
            r == VECTOR_BASE + self.spec_vector_offset(),
    {
        let offset: u64 = match self {
            ExceptionType::Reset => 0x0,
            ExceptionType::UndefinedInstruction => 0x4,
            ExceptionType::SupervisorCall => 0x8,
            ExceptionType::PrefetchAbort => 0xc,
            ExceptionType::DataAbort => 0x10,
            ExceptionType::IRQ => 0x18,
            ExceptionType::FIQ => 0x1c,
        };
        VECTOR_BASE + offset
    }
}

/// Everything delivering one exception does to the CPU registers: the new
/// program counter (the vector address), the link-register value, the new
/// status register, and the old status register saved away.
#[derive(Debug, Clone, Copy, PartialEq, Eq, Structural)]
pub struct ExceptionEffects {
    pub vector_address: u64,
    pub link_register: u64,
    pub new_cpsr: u64,
    pub saved_cpsr: u64,
}

/// Compute the register effects of delivering `exc` at program counter `pc`
/// with current status register `cpsr`: jump to the fixed vector slot, set
/// the link register to the resume point for the kind, switch the mode bits
/// to the exception's target mode while masking its interrupts, and save
/// the previous status register.
pub fn exception_effects(exc: ExceptionType, pc: u64, cpsr: u64) -> (r: ExceptionEffects)
    requires
        pc <= PC_LIMIT,
    ensures
        r.vector_address == VECTOR_BASE + exc.spec_vector_offset(),
        r.link_register == pc + exc.spec_link_offset(),
        r.new_cpsr == (cpsr & !0b00111111u64) | exc.spec_mode_bits(),
        r.saved_cpsr == cpsr,
{
    let link_offset: u64 = match exc {
        ExceptionType::Reset => 0,
        ExceptionType::UndefinedInstruction => 4,
        ExceptionType::SupervisorCall => 0,
        ExceptionType::PrefetchAbort => 4,
        ExceptionType::DataAbort => 8,
        ExceptionType::IRQ => 4,
        ExceptionType::FIQ => 4,
    };
    let mode_bits: u64 = match exc {
        ExceptionType::Reset => 0b11010011,
        ExceptionType::UndefinedInstruction => 0b10011011,
        ExceptionType::SupervisorCall => 0b10010011,
        ExceptionType::PrefetchAbort => 0b10010111,
        ExceptionType::DataAbort => 0b10010111,
        ExceptionType::IRQ => 0b10010010,
        ExceptionType::FIQ => 0b11010001,
    };
    ExceptionEffects {
        vector_address: exc.to_vector_address(),
        link_register: pc + link_offset,
        new_cpsr: (cpsr & !0b00111111u64) | mode_bits,
        saved_cpsr: cpsr,
    }
}

/// React to a software interrupt reported by the CPU engine: interrupt
/// number 2 is the supervisor-call instruction and requests the
/// supervisor-call stop; any other number is unexpected and asks the
/// session to quit on a CPU exception.
pub fn intr(state: &mut ExtraState, intno: u32)
    ensures
        intno == 2 ==> *final(state) == (ExtraState {
            stop_reason: old(state).stop_reason.spec_insert(StopReasonKind::Svc),
            ..*old(state)
        }),
        intno != 2 ==> *final(state) == (ExtraState {
            stop_reason: old(state).stop_reason.spec_insert_quit(QuitDetail::CPUException),
            ..*old(state)
        }),
{
    if intno == 2 {
        state.stop_reason.insert(StopReasonKind::Svc);
    } else {
        state.stop_reason.insert_quit(QuitDetail::CPUException);
    }
}

} // verus!
