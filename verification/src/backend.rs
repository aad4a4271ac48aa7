use vstd::prelude::*;

verus! {

/// Which CPU engine variant is driving guest execution. The two engines
/// deliver traps differently but must expose identical observable register
/// and control semantics to the dispatch layer.
#[derive(Clone, Copy, Debug, PartialEq, Eq, Structural)]
pub enum EngineKind {
    Interpretive,
    Jit,
}

/// Reason code handed to the backend when the current execution epoch is
/// stopped. Diagnostics with payloads travel in `TrapError`; the backend
/// itself only records the kind of condition that stopped it.
#[derive(Clone, Copy, Debug, PartialEq, Eq, Structural)]
pub enum StopReason {
    UnsupportedTrap,
    UnknownHandlerId,
    UnknownSyscallNumber,
    HandlerFailure,
}

/// Whether the backend is still executing guest code or has been stopped.
#[derive(Clone, Copy, Debug, PartialEq, Eq, Structural)]
pub enum ExecStatus {
    Running,
    Stopped(StopReason),
}

/// Symbolic names for the guest's general registers, the stack pointer and
/// the program counter, as offered to syscall and handler collaborators.
#[derive(Clone, Copy, Debug, PartialEq, Eq, Structural)]
pub enum Reg {
    X0,
    X1,
    X2,
    X3,
    X4,
    X5,
    X6,
    X7,
    X8,
    X9,
    X10,
    X11,
    X12,
    X13,
    X14,
    X15,
    X16,
    X17,
    X18,
    X19,
    X20,
    X21,
    X22,
    X23,
    X24,
    X25,
    X26,
    X27,
    X28,
    X29,
    X30,
    Sp,
    Pc,
}

/// The guest CPU state owned by an execution backend, held as plain values:
/// the register file, the engine variant, and the run status. The
/// instruction-set simulation itself is an external collaborator; a driver
/// synchronizes this state with its engine around every trap.
pub struct Backend {
    pub kind: EngineKind,
    pub status: ExecStatus,
    pub x0: u64,
    pub x1: u64,
    pub x2: u64,
    pub x3: u64,
    pub x4: u64,
    pub x5: u64,
    pub x6: u64,
    pub x7: u64,
    pub x8: u64,
    pub x9: u64,
    pub x10: u64,
    pub x11: u64,
    pub x12: u64,
    pub x13: u64,
    pub x14: u64,
    pub x15: u64,
    pub x16: u64,
    pub x17: u64,
    pub x18: u64,
    pub x19: u64,
    pub x20: u64,
    pub x21: u64,
    pub x22: u64,
    pub x23: u64,
    pub x24: u64,
    pub x25: u64,
    pub x26: u64,
    pub x27: u64,
    pub x28: u64,
    pub x29: u64,
    pub x30: u64,
    pub sp: u64,
    pub pc: u64,
}

impl Backend {
    /// The value the register file holds for register `r`.
    pub open spec fn reg_val(self, r: Reg) -> u64 {
        match r {
            Reg::X0 => self.x0,
            Reg::X1 => self.x1,
            Reg::X2 => self.x2,
            Reg::X3 => self.x3,
            Reg::X4 => self.x4,
            Reg::X5 => self.x5,
            Reg::X6 => self.x6,
            Reg::X7 => self.x7,
            Reg::X8 => self.x8,
            Reg::X9 => self.x9,
            Reg::X10 => self.x10,
            Reg::X11 => self.x11,
            Reg::X12 => self.x12,
            Reg::X13 => self.x13,
            Reg::X14 => self.x14,
            Reg::X15 => self.x15,
            Reg::X16 => self.x16,
            Reg::X17 => self.x17,
            Reg::X18 => self.x18,
            Reg::X19 => self.x19,
            Reg::X20 => self.x20,
            Reg::X21 => self.x21,
            Reg::X22 => self.x22,
            Reg::X23 => self.x23,
            Reg::X24 => self.x24,
            Reg::X25 => self.x25,
            Reg::X26 => self.x26,
            Reg::X27 => self.x27,
            Reg::X28 => self.x28,
            Reg::X29 => self.x29,
            Reg::X30 => self.x30,
            Reg::Sp => self.sp,
            Reg::Pc => self.pc,
        }
    }

    /// This backend with register `r` set to `v` and all else unchanged.
    pub open spec fn with_reg(self, r: Reg, v: u64) -> Backend {
        match r {
            Reg::X0 => Backend { x0: v, ..self },
            Reg::X1 => Backend { x1: v, ..self },
            Reg::X2 => Backend { x2: v, ..self },
            Reg::X3 => Backend { x3: v, ..self },
            Reg::X4 => Backend { x4: v, ..self },
            Reg::X5 => Backend { x5: v, ..self },
            Reg::X6 => Backend { x6: v, ..self },
            Reg::X7 => Backend { x7: v, ..self },
            Reg::X8 => Backend { x8: v, ..self },
            Reg::X9 => Backend { x9: v, ..self },
            Reg::X10 => Backend { x10: v, ..self },
            Reg::X11 => Backend { x11: v, ..self },
            Reg::X12 => Backend { x12: v, ..self },
            Reg::X13 => Backend { x13: v, ..self },
            Reg::X14 => Backend { x14: v, ..self },
            Reg::X15 => Backend { x15: v, ..self },
            Reg::X16 => Backend { x16: v, ..self },
            Reg::X17 => Backend { x17: v, ..self },
            Reg::X18 => Backend { x18: v, ..self },
            Reg::X19 => Backend { x19: v, ..self },
            Reg::X20 => Backend { x20: v, ..self },
            Reg::X21 => Backend { x21: v, ..self },
            Reg::X22 => Backend { x22: v, ..self },
            Reg::X23 => Backend { x23: v, ..self },
            Reg::X24 => Backend { x24: v, ..self },
            Reg::X25 => Backend { x25: v, ..self },
            Reg::X26 => Backend { x26: v, ..self },
            Reg::X27 => Backend { x27: v, ..self },
            Reg::X28 => Backend { x28: v, ..self },
            Reg::X29 => Backend { x29: v, ..self },
            Reg::X30 => Backend { x30: v, ..self },
            Reg::Sp => Backend { sp: v, ..self },
            Reg::Pc => Backend { pc: v, ..self },
        }
    }

    /// This backend with its run status replaced and all else unchanged.
    pub open spec fn with_status(self, st: ExecStatus) -> Backend {
        Backend { status: st, ..self }
    }

    /// A fresh backend of the given variant: every register zero, running.
    pub fn new(kind: EngineKind) -> (b: Backend)
        ensures
            b.kind == kind,
            b.status == ExecStatus::Running,
            forall|r: Reg| b.reg_val(r) == 0u64,
    {
        Backend {
            kind,
            status: ExecStatus::Running,
            x0: 0,
            x1: 0,
            x2: 0,
            x3: 0,
            x4: 0,
            x5: 0,
            x6: 0,
            x7: 0,
            x8: 0,
            x9: 0,
            x10: 0,
            x11: 0,
            x12: 0,
            x13: 0,
            x14: 0,
            x15: 0,
            x16: 0,
            x17: 0,
            x18: 0,
            x19: 0,
            x20: 0,
            x21: 0,
            x22: 0,
            x23: 0,
            x24: 0,
            x25: 0,
            x26: 0,
            x27: 0,
            x28: 0,
            x29: 0,
            x30: 0,
            sp: 0,
            pc: 0,
        }
    }

    /// Read a register by symbolic name.
    pub fn reg_read(&self, r: Reg) -> (v: u64)
        ensures
            v == self.reg_val(r),
    {
        match r {
            Reg::X0 => self.x0,
            Reg::X1 => self.x1,
            Reg::X2 => self.x2,
            Reg::X3 => self.x3,
            Reg::X4 => self.x4,
            Reg::X5 => self.x5,
            Reg::X6 => self.x6,
            Reg::X7 => self.x7,
            Reg::X8 => self.x8,
            Reg::X9 => self.x9,
            Reg::X10 => self.x10,
            Reg::X11 => self.x11,
            Reg::X12 => self.x12,
            Reg::X13 => self.x13,
            Reg::X14 => self.x14,
            Reg::X15 => self.x15,
            Reg::X16 => self.x16,
            Reg::X17 => self.x17,
            Reg::X18 => self.x18,
            Reg::X19 => self.x19,
            Reg::X20 => self.x20,
            Reg::X21 => self.x21,
            Reg::X22 => self.x22,
            Reg::X23 => self.x23,
            Reg::X24 => self.x24,
            Reg::X25 => self.x25,
            Reg::X26 => self.x26,
            Reg::X27 => self.x27,
            Reg::X28 => self.x28,
            Reg::X29 => self.x29,
            Reg::X30 => self.x30,
            Reg::Sp => self.sp,
            Reg::Pc => self.pc,
        }
    }

    /// Write a register by symbolic name, leaving every other register, the
    /// engine variant and the run status as they were.
    pub fn reg_write(&mut self, r: Reg, v: u64)
        ensures
            *final(self) == old(self).with_reg(r, v),
    {
        match r {
            Reg::X0 => { self.x0 = v; }
            Reg::X1 => { self.x1 = v; }
            Reg::X2 => { self.x2 = v; }
            Reg::X3 => { self.x3 = v; }
            Reg::X4 => { self.x4 = v; }
            Reg::X5 => { self.x5 = v; }
            Reg::X6 => { self.x6 = v; }
            Reg::X7 => { self.x7 = v; }
            Reg::X8 => { self.x8 = v; }
            Reg::X9 => { self.x9 = v; }
            Reg::X10 => { self.x10 = v; }
            Reg::X11 => { self.x11 = v; }
            Reg::X12 => { self.x12 = v; }
            Reg::X13 => { self.x13 = v; }
            Reg::X14 => { self.x14 = v; }
            Reg::X15 => { self.x15 = v; }
            Reg::X16 => { self.x16 = v; }
            Reg::X17 => { self.x17 = v; }
            Reg::X18 => { self.x18 = v; }
            Reg::X19 => { self.x19 = v; }
            Reg::X20 => { self.x20 = v; }
            Reg::X21 => { self.x21 = v; }
            Reg::X22 => { self.x22 = v; }
            Reg::X23 => { self.x23 = v; }
            Reg::X24 => { self.x24 = v; }
            Reg::X25 => { self.x25 = v; }
            Reg::X26 => { self.x26 = v; }
            Reg::X27 => { self.x27 = v; }
            Reg::X28 => { self.x28 = v; }
            Reg::X29 => { self.x29 = v; }
            Reg::X30 => { self.x30 = v; }
            Reg::Sp => { self.sp = v; }
            Reg::Pc => { self.pc = v; }
        }
    }

    /// Write a signed value into a register, as the result-register write of
    /// handler dispatch does; the register holds its two's-complement bits.
    pub fn reg_write_i64(&mut self, r: Reg, v: i64)
        ensures
            *final(self) == old(self).with_reg(r, v as u64),
    {
        self.reg_write(r, #[verifier::truncate] (v as u64));
    }

    /// Stop the current execution epoch with a reason code. Registers are
    /// left untouched: a stop must never corrupt guest state.
    pub fn emu_stop(&mut self, reason: StopReason)
        ensures
            *final(self) == old(self).with_status(ExecStatus::Stopped(reason)),
    {
        self.status = ExecStatus::Stopped(reason);
    }

    /// A dump of the full register context, in register order `X0` ...
    /// `X30`, `SP`, `PC`; drivers log it before aborting on an
    /// undefined-instruction trap.
    pub fn context_snapshot(&self) -> (dump: Vec<u64>)
        ensures
            dump@ =~= seq![self.x0, self.x1, self.x2, self.x3, self.x4, self.x5, self.x6, self.x7, self.x8, self.x9, self.x10, self.x11, self.x12, self.x13, self.x14, self.x15, self.x16, self.x17, self.x18, self.x19, self.x20, self.x21, self.x22, self.x23, self.x24, self.x25, self.x26, self.x27, self.x28, self.x29, self.x30, self.sp, self.pc],
    {
        let mut dump: Vec<u64> = Vec::new();
        dump.push(self.x0);
        dump.push(self.x1);
        dump.push(self.x2);
        dump.push(self.x3);
        dump.push(self.x4);
        dump.push(self.x5);
        dump.push(self.x6);
        dump.push(self.x7);
        dump.push(self.x8);
        dump.push(self.x9);
        dump.push(self.x10);
        dump.push(self.x11);
        dump.push(self.x12);
        dump.push(self.x13);
        dump.push(self.x14);
        dump.push(self.x15);
        dump.push(self.x16);
        dump.push(self.x17);
        dump.push(self.x18);
        dump.push(self.x19);
        dump.push(self.x20);
        dump.push(self.x21);
        dump.push(self.x22);
        dump.push(self.x23);
        dump.push(self.x24);
        dump.push(self.x25);
        dump.push(self.x26);
        dump.push(self.x27);
        dump.push(self.x28);
        dump.push(self.x29);
        dump.push(self.x30);
        dump.push(self.sp);
        dump.push(self.pc);
        dump
    }
}

} // verus!
