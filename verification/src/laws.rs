use vstd::prelude::*;

use crate::backend::{Backend, ExecStatus, Reg, StopReason};
use crate::classifier::{
    classify_spec, trap_dispatch_post, TrapDecision, TrapError, TrapEvent, TrapOutcome,
    KERNEL_SYSCALL_OPERAND, LINKAGE_SYSCALL_NUMBER, POP_CONTEXT_OPERAND,
    POST_CALLBACK_SYSCALL_NUMBER, PRE_CALLBACK_SYSCALL_NUMBER, THREAD_SWITCH_OPERAND,
};
use crate::syscalls::spec_dispatch_key;

verus! {

/// Law: a supervisor-call trap whose operand is a registered, nonzero,
/// non-sentinel handler id classifies to an invocation of exactly that
/// handler, whatever the other registers hold.
pub proof fn lemma_registered_operand_invokes_handler(
    ev: TrapEvent,
    nr: u64,
    x16: u64,
    x12: u64,
    ids: Set<u32>,
)
    requires
        ev.exception_class is SupervisorCall,
        ev.operand != KERNEL_SYSCALL_OPERAND,
        ev.operand != POP_CONTEXT_OPERAND,
        ev.operand != THREAD_SWITCH_OPERAND,
        ids.contains(ev.operand as u32),
    ensures
        classify_spec(ev, nr, x16, x12, ids) == TrapDecision::InvokeHandler(ev.operand as u32),
{
}

/// Law: a supervisor-call trap whose nonzero, non-sentinel operand is
/// absent from the registry invokes no handler: handling it stops
/// execution and the diagnostic names the operand.
pub proof fn lemma_unregistered_operand_is_fatal(
    ev: TrapEvent,
    pre: Backend,
    post: Backend,
    ids: Set<u32>,
    routed: Set<u64>,
    r: TrapOutcome,
)
    requires
        ev.exception_class is SupervisorCall,
        ev.operand != KERNEL_SYSCALL_OPERAND,
        ev.operand != POP_CONTEXT_OPERAND,
        ev.operand != THREAD_SWITCH_OPERAND,
        !ids.contains(ev.operand as u32),
        trap_dispatch_post(ev, pre, post, ids, routed, r),
    ensures
        r == TrapOutcome::Fatal(TrapError::UnknownHandlerId(ev.operand as u32)),
        post == pre.with_status(ExecStatus::Stopped(StopReason::UnknownHandlerId)),
{
}

/// Law: the pop-context sentinel operand always yields the Pop-Context
/// signal, regardless of the syscall-number register's contents, and
/// leaves the backend untouched.
pub proof fn lemma_pop_context_sentinel(
    ev: TrapEvent,
    pre: Backend,
    post: Backend,
    ids: Set<u32>,
    routed: Set<u64>,
    r: TrapOutcome,
)
    requires
        ev.exception_class is SupervisorCall,
        ev.operand == POP_CONTEXT_OPERAND,
        trap_dispatch_post(ev, pre, post, ids, routed, r),
    ensures
        r == TrapOutcome::PopContext,
        post == pre,
{
}

/// Law: the thread-context-switch sentinel operand always yields the
/// Thread-Context-Switch signal, regardless of the syscall-number
/// register's contents, and leaves the backend untouched.
pub proof fn lemma_thread_switch_sentinel(
    ev: TrapEvent,
    pre: Backend,
    post: Backend,
    ids: Set<u32>,
    routed: Set<u64>,
    r: TrapOutcome,
)
    requires
        ev.exception_class is SupervisorCall,
        ev.operand == THREAD_SWITCH_OPERAND,
        trap_dispatch_post(ev, pre, post, ids, routed, r),
    ensures
        r == TrapOutcome::SwitchContext,
        post == pre,
{
}

/// Law: operand 0 on the reserved linkage syscall number with the PRE
/// sentinel in the first scratch register classifies to exactly the
/// pre-callback of the handler named by the second scratch register,
/// never to the ordinary dispatch path.
pub proof fn lemma_pre_callback_notification(
    ev: TrapEvent,
    nr: u64,
    x16: u64,
    x12: u64,
    ids: Set<u32>,
)
    requires
        ev.exception_class is SupervisorCall,
        ev.operand == KERNEL_SYSCALL_OPERAND,
        nr == LINKAGE_SYSCALL_NUMBER,
        x16 == PRE_CALLBACK_SYSCALL_NUMBER,
        ids.contains(x12 as u32),
    ensures
        classify_spec(ev, nr, x16, x12, ids) == TrapDecision::PreCallback(x12 as u32),
{
}

/// Law: the same configuration with the POST sentinel classifies to
/// exactly the post-callback of the handler named by the second scratch
/// register, never to the ordinary dispatch path.
pub proof fn lemma_post_callback_notification(
    ev: TrapEvent,
    nr: u64,
    x16: u64,
    x12: u64,
    ids: Set<u32>,
)
    requires
        ev.exception_class is SupervisorCall,
        ev.operand == KERNEL_SYSCALL_OPERAND,
        nr == LINKAGE_SYSCALL_NUMBER,
        x16 == POST_CALLBACK_SYSCALL_NUMBER,
        ids.contains(x12 as u32),
    ensures
        classify_spec(ev, nr, x16, x12, ids) == TrapDecision::PostCallback(x12 as u32),
{
}

/// Law: operand 0 with any syscall number outside the callback
/// side-channel classifies to a dispatch-table routing of that number; a
/// populated entry lets execution continue, and an absent entry stops
/// execution with a diagnostic citing the number the table was consulted
/// with.
pub proof fn lemma_kernel_syscall_routed(
    ev: TrapEvent,
    pre: Backend,
    post: Backend,
    ids: Set<u32>,
    routed: Set<u64>,
    r: TrapOutcome,
)
    requires
        ev.exception_class is SupervisorCall,
        ev.operand == KERNEL_SYSCALL_OPERAND,
        !(pre.reg_val(Reg::X8) == LINKAGE_SYSCALL_NUMBER && (pre.reg_val(Reg::X16)
            == PRE_CALLBACK_SYSCALL_NUMBER || pre.reg_val(Reg::X16)
            == POST_CALLBACK_SYSCALL_NUMBER)),
        trap_dispatch_post(ev, pre, post, ids, routed, r),
    ensures
        classify_spec(ev, pre.reg_val(Reg::X8), pre.reg_val(Reg::X16), pre.reg_val(Reg::X12), ids)
            == TrapDecision::DispatchSyscall(pre.reg_val(Reg::X8)),
        routed.contains(spec_dispatch_key(pre.reg_val(Reg::X8))) ==> r == TrapOutcome::Continue,
        !routed.contains(spec_dispatch_key(pre.reg_val(Reg::X8))) ==> r == TrapOutcome::Fatal(
            TrapError::UnknownSyscallNumber(spec_dispatch_key(pre.reg_val(Reg::X8))),
        ) && post == pre.with_status(ExecStatus::Stopped(StopReason::UnknownSyscallNumber)),
{
}

/// Law: a breakpoint or undefined-instruction trap aborts the epoch at
/// once — no handler lookup and no dispatch-table routing — stopping
/// execution with the unsupported-trap diagnostic and touching no
/// register.
pub proof fn lemma_unsupported_trap_aborts(
    ev: TrapEvent,
    pre: Backend,
    post: Backend,
    ids: Set<u32>,
    routed: Set<u64>,
    r: TrapOutcome,
)
    requires
        !(ev.exception_class is SupervisorCall),
        trap_dispatch_post(ev, pre, post, ids, routed, r),
    ensures
        r == TrapOutcome::Fatal(TrapError::UnsupportedTrap(ev.exception_class)),
        post == pre.with_status(ExecStatus::Stopped(StopReason::UnsupportedTrap)),
{
}

} // verus!
