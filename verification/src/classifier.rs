use vstd::prelude::*;

use crate::backend::{Backend, ExecStatus, Reg, StopReason};
use crate::dispatch::{syscall, DispatchTable, SyscallCollaborator};
use crate::handler::{Handler, HandlerOutcome, HandlerRegistry};
use crate::syscalls::{spec_dispatch_key, syscall_from_number};

verus! {

/// Trap operand that means "real kernel syscall: identify it through the
/// syscall-number register". It is never a handler id.
pub const KERNEL_SYSCALL_OPERAND: u16 = 0;

/// Reserved trap operand that abandons the current execution epoch and
/// returns control to the caller of "run guest code".
pub const POP_CONTEXT_OPERAND: u16 = 0xffff;

/// Reserved trap operand that asks the scheduler collaborator for a switch
/// to another saved guest thread context.
pub const THREAD_SWITCH_OPERAND: u16 = 0xfffe;

/// The reserved syscall number whose traps carry pre/post hook
/// notifications in two scratch registers instead of a real kernel call.
pub const LINKAGE_SYSCALL_NUMBER: u64 = 0;

/// Sentinel in the first scratch register marking a trap on the linkage
/// syscall number as a post-callback notification.
pub const POST_CALLBACK_SYSCALL_NUMBER: u64 = 0x8865;

/// Sentinel in the first scratch register marking a trap on the linkage
/// syscall number as a pre-callback notification.
pub const PRE_CALLBACK_SYSCALL_NUMBER: u64 = 0x8887;

/// Raw trap number under which the interpretive engine reports an
/// undefined-instruction exception.
pub const EXCP_UDEF: u32 = 1;

/// Raw trap number under which the interpretive engine reports a
/// supervisor-call exception.
pub const EXCP_SWI: u32 = 2;

/// Raw trap number under which the interpretive engine reports a
/// breakpoint exception.
pub const EXCP_BKPT: u32 = 7;

/// The kind of CPU exception that raised a trap. Only supervisor calls are
/// dispatchable; breakpoints and undefined instructions are always fatal.
#[derive(Clone, Copy, Debug, PartialEq, Eq, Structural)]
pub enum ExceptionClass {
    Breakpoint,
    UndefinedInstruction,
    SupervisorCall,
}

/// One trap as delivered by an execution backend: the exception class, the
/// 16-bit operand recovered from the trapping instruction or handed over
/// directly by the engine, and the program counter at trap time.
#[derive(Clone, Copy, Debug, PartialEq, Eq, Structural)]
pub struct TrapEvent {
    pub exception_class: ExceptionClass,
    pub operand: u16,
    pub program_counter: u64,
}

/// An unrecoverable condition met while classifying or dispatching a trap.
/// Execution of the current epoch stops; the variants carry the diagnostic
/// that the driver surfaces.
#[derive(Debug, PartialEq, Eq)]
pub enum TrapError {
    /// A breakpoint or undefined-instruction trap, never dispatchable.
    UnsupportedTrap(ExceptionClass),
    /// A nonzero, non-sentinel operand (or a callback notification's id)
    /// named no registered handler.
    UnknownHandlerId(u32),
    /// The syscall number was absent from the dispatch table.
    UnknownSyscallNumber(u64),
    /// A registered handler's `handle` reported an explicit failure.
    HandlerFailure(String),
}

/// The typed outcome of handling one trap, propagated up the call chain to
/// the driver of "run guest code". Pop-context and thread-context-switch
/// are normal, expected outcomes of cooperative scheduling, not errors.
#[derive(Debug, PartialEq, Eq)]
pub enum TrapOutcome {
    /// Guest execution resumes after the trapping instruction.
    Continue,
    /// Abandon the current execution epoch; control returns to the caller.
    PopContext,
    /// Switch to another saved guest thread context.
    SwitchContext,
    /// The epoch stopped on an unrecoverable condition.
    Fatal(TrapError),
}

/// What a trap classifies to, before any collaborator runs: a non-local
/// control signal, a handler or callback invocation, a kernel syscall to
/// route through the dispatch table, or an unrecoverable rejection.
#[derive(Debug, PartialEq, Eq)]
pub enum TrapDecision {
    PopContext,
    SwitchContext,
    InvokeHandler(u32),
    PreCallback(u32),
    PostCallback(u32),
    DispatchSyscall(u64),
    Reject(TrapError),
}

/// The backend stop-reason code for each unrecoverable condition.
pub open spec fn spec_stop_reason(e: TrapError) -> StopReason {
    match e {
        TrapError::UnsupportedTrap(_) => StopReason::UnsupportedTrap,
        TrapError::UnknownHandlerId(_) => StopReason::UnknownHandlerId,
        TrapError::UnknownSyscallNumber(_) => StopReason::UnknownSyscallNumber,
        TrapError::HandlerFailure(_) => StopReason::HandlerFailure,
    }
}

/// The backend stop-reason code for `e`.
pub fn stop_reason_of(e: &TrapError) -> (s: StopReason)
    ensures
        s == spec_stop_reason(*e),
{
    match e {
        TrapError::UnsupportedTrap(_) => StopReason::UnsupportedTrap,
        TrapError::UnknownHandlerId(_) => StopReason::UnknownHandlerId,
        TrapError::UnknownSyscallNumber(_) => StopReason::UnknownSyscallNumber,
        TrapError::HandlerFailure(_) => StopReason::HandlerFailure,
    }
}

/// How one trap is classified, given the trap event, the syscall-number
/// register `nr`, the two scratch registers `x16` and `x12`, and the set
/// `ids` of registered handler ids.
///
/// Breakpoint and undefined-instruction traps are rejected outright. For a
/// supervisor call: the two sentinel operands signal a context switch; any
/// other nonzero operand must name a registered handler; operand 0 on the
/// linkage syscall number with a callback sentinel in the first scratch
/// register is a pre/post notification for the handler named by the second
/// scratch register; and operand 0 otherwise is an ordinary kernel syscall.
pub open spec fn classify_spec(
    ev: TrapEvent,
    nr: u64,
    x16: u64,
    x12: u64,
    ids: Set<u32>,
) -> TrapDecision {
    match ev.exception_class {
        ExceptionClass::Breakpoint => TrapDecision::Reject(
            TrapError::UnsupportedTrap(ExceptionClass::Breakpoint),
        ),
        ExceptionClass::UndefinedInstruction => TrapDecision::Reject(
            TrapError::UnsupportedTrap(ExceptionClass::UndefinedInstruction),
        ),
        ExceptionClass::SupervisorCall => {
            if ev.operand == POP_CONTEXT_OPERAND {
                TrapDecision::PopContext
            } else if ev.operand == THREAD_SWITCH_OPERAND {
                TrapDecision::SwitchContext
            } else if ev.operand != KERNEL_SYSCALL_OPERAND {
                if ids.contains(ev.operand as u32) {
                    TrapDecision::InvokeHandler(ev.operand as u32)
                } else {
                    TrapDecision::Reject(TrapError::UnknownHandlerId(ev.operand as u32))
                }
            } else if nr == LINKAGE_SYSCALL_NUMBER && x16 == POST_CALLBACK_SYSCALL_NUMBER {
                if ids.contains(x12 as u32) {
                    TrapDecision::PostCallback(x12 as u32)
                } else {
                    TrapDecision::Reject(TrapError::UnknownHandlerId(x12 as u32))
                }
            } else if nr == LINKAGE_SYSCALL_NUMBER && x16 == PRE_CALLBACK_SYSCALL_NUMBER {
                if ids.contains(x12 as u32) {
                    TrapDecision::PreCallback(x12 as u32)
                } else {
                    TrapDecision::Reject(TrapError::UnknownHandlerId(x12 as u32))
                }
            } else {
                TrapDecision::DispatchSyscall(nr)
            }
        },
    }
}

/// Classify one trap against the registered handler ids, exactly as
/// `classify_spec` says. This routine is shared by both engine front ends:
/// the two engines deliver traps differently, but classification must not
/// drift between them.
pub fn classify<H: Handler>(
    ev: &TrapEvent,
    nr: u64,
    x16: u64,
    x12: u64,
    registry: &HandlerRegistry<H>,
) -> (d: TrapDecision)
    ensures
        d == classify_spec(*ev, nr, x16, x12, registry@.dom()),
{
    match ev.exception_class {
        ExceptionClass::Breakpoint => TrapDecision::Reject(
            TrapError::UnsupportedTrap(ExceptionClass::Breakpoint),
        ),
        ExceptionClass::UndefinedInstruction => TrapDecision::Reject(
            TrapError::UnsupportedTrap(ExceptionClass::UndefinedInstruction),
        ),
        ExceptionClass::SupervisorCall => {
            if ev.operand == POP_CONTEXT_OPERAND {
                TrapDecision::PopContext
            } else if ev.operand == THREAD_SWITCH_OPERAND {
                TrapDecision::SwitchContext
            } else if ev.operand != KERNEL_SYSCALL_OPERAND {
                let id = ev.operand as u32;
                if registry.contains(id) {
                    TrapDecision::InvokeHandler(id)
                } else {
                    TrapDecision::Reject(TrapError::UnknownHandlerId(id))
                }
            } else if nr == LINKAGE_SYSCALL_NUMBER && x16 == POST_CALLBACK_SYSCALL_NUMBER {
                let id = #[verifier::truncate] (x12 as u32);
                if registry.contains(id) {
                    TrapDecision::PostCallback(id)
                } else {
                    TrapDecision::Reject(TrapError::UnknownHandlerId(id))
                }
            } else if nr == LINKAGE_SYSCALL_NUMBER && x16 == PRE_CALLBACK_SYSCALL_NUMBER {
                let id = #[verifier::truncate] (x12 as u32);
                if registry.contains(id) {
                    TrapDecision::PreCallback(id)
                } else {
                    TrapDecision::Reject(TrapError::UnknownHandlerId(id))
                }
            } else {
                TrapDecision::DispatchSyscall(nr)
            }
        },
    }
}

/// The 16-bit operand carried by the trapping instruction: bits 5 through
/// 20 of the fixed-width little-endian instruction word found at a fixed
/// offset before the program counter.
pub open spec fn spec_recover_operand(b0: u8, b1: u8, b2: u8, b3: u8) -> u16 {
    ((((b0 as u32) | ((b1 as u32) << 8) | ((b2 as u32) << 16) | ((b3 as u32) << 24)) >> 5)
        & 0xffff) as u16
}

/// Recover the trap operand from the four bytes of the trapping
/// instruction, read little-endian at the fixed offset before the program
/// counter. Engines that do not deliver the operand directly rely on this;
/// the fixed-width encoding assumption is deliberate and untested input
/// (an unaligned trap) is out of scope.
pub fn recover_operand(b0: u8, b1: u8, b2: u8, b3: u8) -> (op: u16)
    ensures
        op == spec_recover_operand(b0, b1, b2, b3),
{
    let word: u32 = (b0 as u32) | ((b1 as u32) << 8) | ((b2 as u32) << 16) | ((b3 as u32) << 24);
    #[verifier::truncate] (((word >> 5) & 0xffff) as u16)
}

/// Apply what a handler reported to the backend: a numeric result goes to
/// the result register and execution continues; no result leaves the
/// registers untouched by this layer; an explicit failure stops execution
/// and surfaces the diagnostic without crashing the host process.
pub fn apply_handler_outcome(outcome: HandlerOutcome, backend: &mut Backend) -> (r: TrapOutcome)
    ensures
        outcome is Void ==> r == TrapOutcome::Continue && *final(backend) == *old(backend),
        (outcome matches HandlerOutcome::Value(v) ==>
            r == TrapOutcome::Continue
            && *final(backend) == old(backend).with_reg(Reg::X0, v as u64)),
        (outcome matches HandlerOutcome::Failure(msg) ==>
            r == TrapOutcome::Fatal(TrapError::HandlerFailure(msg))
            && *final(backend) == old(backend).with_status(
                ExecStatus::Stopped(StopReason::HandlerFailure),
            )),
{
    match outcome {
        HandlerOutcome::Void => TrapOutcome::Continue,
        HandlerOutcome::Value(v) => {
            backend.reg_write_i64(Reg::X0, v);
            TrapOutcome::Continue
        },
        HandlerOutcome::Failure(msg) => {
            backend.emu_stop(StopReason::HandlerFailure);
            TrapOutcome::Fatal(TrapError::HandlerFailure(msg))
        },
    }
}

/// What handling one trap guarantees, as a relation between the trap event
/// `ev`, the backend before (`pre`) and after (`post`), the registered
/// handler ids, the populated dispatch-table keys, and the outcome `r`.
///
/// The paths that run no collaborator are pinned exactly. Where a handler,
/// callback or syscall implementation runs, the backend afterwards is
/// whatever that collaborator left behind, and only the outcome and, for a
/// handler failure, the stop status are stated.
pub open spec fn trap_dispatch_post(
    ev: TrapEvent,
    pre: Backend,
    post: Backend,
    ids: Set<u32>,
    routed: Set<u64>,
    r: TrapOutcome,
) -> bool {
    let d = classify_spec(ev, pre.reg_val(Reg::X8), pre.reg_val(Reg::X16), pre.reg_val(Reg::X12), ids);
    match d {
        TrapDecision::PopContext => r == TrapOutcome::PopContext && post == pre,
        TrapDecision::SwitchContext => r == TrapOutcome::SwitchContext && post == pre,
        TrapDecision::Reject(e) => r == TrapOutcome::Fatal(e) && post == pre.with_status(
            ExecStatus::Stopped(spec_stop_reason(e)),
        ),
        TrapDecision::InvokeHandler(_) => {
            ||| r == TrapOutcome::Continue
            ||| (r matches TrapOutcome::Fatal(e) && e matches TrapError::HandlerFailure(_)
                && post.status == ExecStatus::Stopped(StopReason::HandlerFailure))
        },
        TrapDecision::PreCallback(_) => r == TrapOutcome::Continue,
        TrapDecision::PostCallback(_) => r == TrapOutcome::Continue,
        TrapDecision::DispatchSyscall(nr) => {
            let key = spec_dispatch_key(nr);
            &&& routed.contains(key) ==> r == TrapOutcome::Continue
            &&& !routed.contains(key) ==> r == TrapOutcome::Fatal(
                TrapError::UnknownSyscallNumber(key),
            ) && post == pre.with_status(ExecStatus::Stopped(StopReason::UnknownSyscallNumber))
        },
    }
}

/// Handle one classified trap: the single dispatch routine shared by both
/// engine front ends. Classification consults the handler registry; the
/// decision then either returns a context-switch signal, invokes the named
/// handler or callback, routes the syscall number through the dispatch
/// table, or stops execution on an unrecoverable condition.
pub fn handle_trap<H: Handler, S: SyscallCollaborator>(
    ev: &TrapEvent,
    backend: &mut Backend,
    registry: &HandlerRegistry<H>,
    table: &DispatchTable<S>,
) -> (r: TrapOutcome)
    ensures
        trap_dispatch_post(*ev, *old(backend), *final(backend), registry@.dom(), table@.dom(), r),
{
    let nr = backend.reg_read(Reg::X8);
    let x16 = backend.reg_read(Reg::X16);
    let x12 = backend.reg_read(Reg::X12);
    let d = classify(ev, nr, x16, x12, registry);
    match d {
        TrapDecision::PopContext => TrapOutcome::PopContext,
        TrapDecision::SwitchContext => TrapOutcome::SwitchContext,
        TrapDecision::Reject(e) => {
            let reason = stop_reason_of(&e);
            backend.emu_stop(reason);
            TrapOutcome::Fatal(e)
        },
        TrapDecision::InvokeHandler(id) => {
            match registry.get(id) {
                Some(h) => {
                    let outcome = h.handle(backend);
                    apply_handler_outcome(outcome, backend)
                },
                None => unreached(),
            }
        },
        TrapDecision::PreCallback(id) => {
            match registry.get(id) {
                Some(h) => {
                    h.on_pre_callback(backend);
                    TrapOutcome::Continue
                },
                None => unreached(),
            }
        },
        TrapDecision::PostCallback(id) => {
            match registry.get(id) {
                Some(h) => {
                    h.on_post_callback(backend);
                    TrapOutcome::Continue
                },
                None => unreached(),
            }
        },
        TrapDecision::DispatchSyscall(n) => {
            let sc = syscall_from_number(n);
            syscall(sc, backend, table)
        },
    }
}

/// The exception class behind each raw trap number of the interpretive
/// engine. Only the breakpoint, undefined-instruction and supervisor-call
/// numbers occur; the value on any other number is immaterial.
pub open spec fn spec_class_of_intno(intno: u32) -> ExceptionClass {
    if intno == EXCP_BKPT {
        ExceptionClass::Breakpoint
    } else if intno == EXCP_UDEF {
        ExceptionClass::UndefinedInstruction
    } else {
        ExceptionClass::SupervisorCall
    }
}

/// Map a raw trap number of the interpretive engine to its exception
/// class; a number that names no exception this layer knows yields `None`,
/// and the driver skips the trap as the original hook does.
pub fn exception_class_of_intno(intno: u32) -> (c: Option<ExceptionClass>)
    ensures
        c matches Some(cl) ==> cl == spec_class_of_intno(intno),
        c is Some <==> (intno == EXCP_UDEF || intno == EXCP_SWI || intno == EXCP_BKPT),
{
    if intno == EXCP_BKPT {
        Some(ExceptionClass::Breakpoint)
    } else if intno == EXCP_UDEF {
        Some(ExceptionClass::UndefinedInstruction)
    } else if intno == EXCP_SWI {
        Some(ExceptionClass::SupervisorCall)
    } else {
        None
    }
}

/// Trap entry point for the interpretive engine, which reports a raw trap
/// number and leaves the operand to be recovered from the trapping
/// instruction. The driver filters out trap numbers this layer does not
/// know before calling.
pub fn arm64_syscall_handler_unicorn<H: Handler, S: SyscallCollaborator>(
    intno: u32,
    swi: u16,
    backend: &mut Backend,
    registry: &HandlerRegistry<H>,
    table: &DispatchTable<S>,
) -> (r: TrapOutcome)
    requires
        intno == EXCP_UDEF || intno == EXCP_SWI || intno == EXCP_BKPT,
    ensures
        trap_dispatch_post(
            (TrapEvent {
                exception_class: spec_class_of_intno(intno),
                operand: swi,
                program_counter: old(backend).reg_val(Reg::Pc),
            }),
            *old(backend),
            *final(backend),
            registry@.dom(),
            table@.dom(),
            r,
        ),
{
    let exception_class = if intno == EXCP_BKPT {
        ExceptionClass::Breakpoint
    } else if intno == EXCP_UDEF {
        ExceptionClass::UndefinedInstruction
    } else {
        ExceptionClass::SupervisorCall
    };
    let ev = TrapEvent { exception_class, operand: swi, program_counter: backend.reg_read(Reg::Pc) };
    handle_trap(&ev, backend, registry, table)
}

/// Trap entry point for the JIT-style engine, which delivers the trap
/// operand directly and raises only supervisor-call traps.
pub fn arm64_syscall_handler_dynarmic<H: Handler, S: SyscallCollaborator>(
    swi: u16,
    backend: &mut Backend,
    registry: &HandlerRegistry<H>,
    table: &DispatchTable<S>,
) -> (r: TrapOutcome)
    ensures
        trap_dispatch_post(
            (TrapEvent {
                exception_class: ExceptionClass::SupervisorCall,
                operand: swi,
                program_counter: old(backend).reg_val(Reg::Pc),
            }),
            *old(backend),
            *final(backend),
            registry@.dom(),
            table@.dom(),
            r,
        ),
{
    let ev = TrapEvent {
        exception_class: ExceptionClass::SupervisorCall,
        operand: swi,
        program_counter: backend.reg_read(Reg::Pc),
    };
    handle_trap(&ev, backend, registry, table)
}

} // verus!
