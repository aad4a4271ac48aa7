use std::cell::Cell;

use trap_dispatch::backend::{Backend, EngineKind, ExecStatus, Reg, StopReason};
use trap_dispatch::classifier::{
    arm64_syscall_handler_dynarmic, arm64_syscall_handler_unicorn, handle_trap, ExceptionClass,
    TrapError, TrapEvent, TrapOutcome, EXCP_BKPT, EXCP_SWI, EXCP_UDEF,
    POST_CALLBACK_SYSCALL_NUMBER, PRE_CALLBACK_SYSCALL_NUMBER,
};
use trap_dispatch::dispatch::{DispatchTable, SyscallCollaborator};
use trap_dispatch::handler::{Handler, HandlerOutcome, HandlerRegistry};

/// What a test handler should report from `handle`.
enum Plan {
    Void,
    Value(i64),
    Fail(&'static str),
}

struct CountingHandler {
    plan: Plan,
    handle_calls: Cell<u32>,
    pre_calls: Cell<u32>,
    post_calls: Cell<u32>,
}

impl CountingHandler {
    fn new(plan: Plan) -> CountingHandler {
        CountingHandler {
            plan,
            handle_calls: Cell::new(0),
            pre_calls: Cell::new(0),
            post_calls: Cell::new(0),
        }
    }
}

impl Handler for &CountingHandler {
    fn handle(&self, _backend: &mut Backend) -> HandlerOutcome {
        self.handle_calls.set(self.handle_calls.get() + 1);
        match self.plan {
            Plan::Void => HandlerOutcome::Void,
            Plan::Value(v) => HandlerOutcome::Value(v),
            Plan::Fail(msg) => HandlerOutcome::Failure(msg.to_string()),
        }
    }

    fn on_pre_callback(&self, _backend: &mut Backend) {
        self.pre_calls.set(self.pre_calls.get() + 1);
    }

    fn on_post_callback(&self, _backend: &mut Backend) {
        self.post_calls.set(self.post_calls.get() + 1);
    }
}

struct CountingSyscall {
    calls: Cell<u32>,
}

impl CountingSyscall {
    fn new() -> CountingSyscall {
        CountingSyscall { calls: Cell::new(0) }
    }
}

impl SyscallCollaborator for &CountingSyscall {
    fn invoke(&self, backend: &mut Backend) {
        self.calls.set(self.calls.get() + 1);
        backend.reg_write(Reg::X0, 0);
    }
}

fn svc_backend(nr: u64) -> Backend {
    let mut b = Backend::new(EngineKind::Jit);
    b.reg_write(Reg::X8, nr);
    b
}

fn handler_calls<'a>(registry: &'a HandlerRegistry<&CountingHandler>, id: u32) -> (u32, u32, u32) {
    let h = registry.get(id).expect("handler should be registered");
    (h.handle_calls.get(), h.pre_calls.get(), h.post_calls.get())
}

#[test]
fn registered_operand_invokes_exactly_that_handler() {
    let target = CountingHandler::new(Plan::Void);
    let other = CountingHandler::new(Plan::Void);
    let mut registry: HandlerRegistry<&CountingHandler> = HandlerRegistry::new();
    assert!(registry.register(5, &target));
    assert!(registry.register(6, &other));
    let table: DispatchTable<&CountingSyscall> = DispatchTable::new();

    let mut backend = svc_backend(64);
    let r = arm64_syscall_handler_dynarmic(5, &mut backend, &registry, &table);
    assert_eq!(r, TrapOutcome::Continue);
    assert_eq!(handler_calls(&registry, 5), (1, 0, 0));
    assert_eq!(handler_calls(&registry, 6), (0, 0, 0));
    assert_eq!(backend.status, ExecStatus::Running);
}

#[test]
fn unregistered_operand_stops_execution_and_invokes_no_handler() {
    // Scenario: supervisor call with operand 5000, which nothing registered.
    let bystander = CountingHandler::new(Plan::Void);
    let mut registry: HandlerRegistry<&CountingHandler> = HandlerRegistry::new();
    assert!(registry.register(5, &bystander));
    let table: DispatchTable<&CountingSyscall> = DispatchTable::new();

    let mut backend = svc_backend(64);
    let r = arm64_syscall_handler_dynarmic(5000, &mut backend, &registry, &table);
    assert_eq!(r, TrapOutcome::Fatal(TrapError::UnknownHandlerId(5000)));
    assert_eq!(handler_calls(&registry, 5), (0, 0, 0));
    assert_eq!(backend.status, ExecStatus::Stopped(StopReason::UnknownHandlerId));
}

#[test]
fn pop_context_sentinel_wins_regardless_of_syscall_number() {
    let registry: HandlerRegistry<&CountingHandler> = HandlerRegistry::new();
    let write_impl = CountingSyscall::new();
    let mut table: DispatchTable<&CountingSyscall> = DispatchTable::new();
    assert!(table.insert(64, &write_impl));

    for nr in [0u64, 64, 5000, u64::MAX] {
        let mut backend = svc_backend(nr);
        let r = arm64_syscall_handler_dynarmic(0xffff, &mut backend, &registry, &table);
        assert_eq!(r, TrapOutcome::PopContext);
        assert_eq!(backend.status, ExecStatus::Running);
    }
    // No dispatch-table lookup ever reached the collaborator.
    assert_eq!(write_impl.calls.get(), 0);
}

#[test]
fn thread_switch_sentinel_wins_regardless_of_syscall_number() {
    let registry: HandlerRegistry<&CountingHandler> = HandlerRegistry::new();
    let write_impl = CountingSyscall::new();
    let mut table: DispatchTable<&CountingSyscall> = DispatchTable::new();
    assert!(table.insert(64, &write_impl));

    for nr in [0u64, 64, 5000, u64::MAX] {
        let mut backend = svc_backend(nr);
        let r = arm64_syscall_handler_dynarmic(0xfffe, &mut backend, &registry, &table);
        assert_eq!(r, TrapOutcome::SwitchContext);
        assert_eq!(backend.status, ExecStatus::Running);
    }
    assert_eq!(write_impl.calls.get(), 0);
}

#[test]
fn pre_sentinel_invokes_exactly_on_pre_callback() {
    let hooked = CountingHandler::new(Plan::Value(99));
    let mut registry: HandlerRegistry<&CountingHandler> = HandlerRegistry::new();
    assert!(registry.register(7, &hooked));
    // Populate the linkage syscall number itself, to show the side channel
    // never routes through the ordinary dispatch path.
    let io_setup_impl = CountingSyscall::new();
    let mut table: DispatchTable<&CountingSyscall> = DispatchTable::new();
    assert!(table.insert(0, &io_setup_impl));

    let mut backend = svc_backend(0);
    backend.reg_write(Reg::X16, PRE_CALLBACK_SYSCALL_NUMBER);
    backend.reg_write(Reg::X12, 7);
    let r = arm64_syscall_handler_dynarmic(0, &mut backend, &registry, &table);
    assert_eq!(r, TrapOutcome::Continue);
    assert_eq!(handler_calls(&registry, 7), (0, 1, 0));
    assert_eq!(io_setup_impl.calls.get(), 0);
    assert_eq!(backend.status, ExecStatus::Running);
}

#[test]
fn post_sentinel_invokes_exactly_on_post_callback() {
    let hooked = CountingHandler::new(Plan::Value(99));
    let mut registry: HandlerRegistry<&CountingHandler> = HandlerRegistry::new();
    assert!(registry.register(7, &hooked));
    let io_setup_impl = CountingSyscall::new();
    let mut table: DispatchTable<&CountingSyscall> = DispatchTable::new();
    assert!(table.insert(0, &io_setup_impl));

    let mut backend = svc_backend(0);
    backend.reg_write(Reg::X16, POST_CALLBACK_SYSCALL_NUMBER);
    backend.reg_write(Reg::X12, 7);
    let r = arm64_syscall_handler_dynarmic(0, &mut backend, &registry, &table);
    assert_eq!(r, TrapOutcome::Continue);
    assert_eq!(handler_calls(&registry, 7), (0, 0, 1));
    assert_eq!(io_setup_impl.calls.get(), 0);
    assert_eq!(backend.status, ExecStatus::Running);
}

#[test]
fn callback_notification_for_unregistered_id_is_fatal() {
    let registry: HandlerRegistry<&CountingHandler> = HandlerRegistry::new();
    let table: DispatchTable<&CountingSyscall> = DispatchTable::new();

    let mut backend = svc_backend(0);
    backend.reg_write(Reg::X16, PRE_CALLBACK_SYSCALL_NUMBER);
    backend.reg_write(Reg::X12, 12345);
    let r = arm64_syscall_handler_dynarmic(0, &mut backend, &registry, &table);
    assert_eq!(r, TrapOutcome::Fatal(TrapError::UnknownHandlerId(12345)));
    assert_eq!(backend.status, ExecStatus::Stopped(StopReason::UnknownHandlerId));
}

#[test]
fn present_table_entry_is_invoked_exactly_once() {
    let registry: HandlerRegistry<&CountingHandler> = HandlerRegistry::new();
    let clock_impl = CountingSyscall::new();
    let mut table: DispatchTable<&CountingSyscall> = DispatchTable::new();
    assert!(table.insert(113, &clock_impl));

    let mut backend = svc_backend(113);
    let r = arm64_syscall_handler_dynarmic(0, &mut backend, &registry, &table);
    assert_eq!(r, TrapOutcome::Continue);
    assert_eq!(clock_impl.calls.get(), 1);
    assert_eq!(backend.status, ExecStatus::Running);
}

#[test]
fn absent_table_entry_stops_execution_citing_the_number() {
    let registry: HandlerRegistry<&CountingHandler> = HandlerRegistry::new();
    let clock_impl = CountingSyscall::new();
    let mut table: DispatchTable<&CountingSyscall> = DispatchTable::new();
    assert!(table.insert(113, &clock_impl));

    let mut backend = svc_backend(171);
    let r = arm64_syscall_handler_dynarmic(0, &mut backend, &registry, &table);
    assert_eq!(r, TrapOutcome::Fatal(TrapError::UnknownSyscallNumber(171)));
    assert_eq!(clock_impl.calls.get(), 0);
    assert_eq!(backend.status, ExecStatus::Stopped(StopReason::UnknownSyscallNumber));
}

#[test]
fn numeric_handler_result_lands_in_result_register() {
    let valued = CountingHandler::new(Plan::Value(77));
    let mut registry: HandlerRegistry<&CountingHandler> = HandlerRegistry::new();
    assert!(registry.register(9, &valued));
    let table: DispatchTable<&CountingSyscall> = DispatchTable::new();

    let mut backend = svc_backend(64);
    backend.reg_write(Reg::X0, 123);
    let r = arm64_syscall_handler_dynarmic(9, &mut backend, &registry, &table);
    assert_eq!(r, TrapOutcome::Continue);
    assert_eq!(backend.reg_read(Reg::X0), 77);
}

#[test]
fn negative_handler_result_is_written_twos_complement() {
    let valued = CountingHandler::new(Plan::Value(-1));
    let mut registry: HandlerRegistry<&CountingHandler> = HandlerRegistry::new();
    assert!(registry.register(9, &valued));
    let table: DispatchTable<&CountingSyscall> = DispatchTable::new();

    let mut backend = svc_backend(64);
    let r = arm64_syscall_handler_dynarmic(9, &mut backend, &registry, &table);
    assert_eq!(r, TrapOutcome::Continue);
    assert_eq!(backend.reg_read(Reg::X0), u64::MAX);
}

#[test]
fn void_handler_result_leaves_result_register_untouched() {
    let quiet = CountingHandler::new(Plan::Void);
    let mut registry: HandlerRegistry<&CountingHandler> = HandlerRegistry::new();
    assert!(registry.register(9, &quiet));
    let table: DispatchTable<&CountingSyscall> = DispatchTable::new();

    let mut backend = svc_backend(64);
    backend.reg_write(Reg::X0, 123);
    let r = arm64_syscall_handler_dynarmic(9, &mut backend, &registry, &table);
    assert_eq!(r, TrapOutcome::Continue);
    assert_eq!(backend.reg_read(Reg::X0), 123);
}

#[test]
fn failing_handler_stops_execution_with_its_diagnostic() {
    let failing = CountingHandler::new(Plan::Fail("handler refused the call"));
    let mut registry: HandlerRegistry<&CountingHandler> = HandlerRegistry::new();
    assert!(registry.register(9, &failing));
    let table: DispatchTable<&CountingSyscall> = DispatchTable::new();

    let mut backend = svc_backend(64);
    let r = arm64_syscall_handler_dynarmic(9, &mut backend, &registry, &table);
    assert_eq!(
        r,
        TrapOutcome::Fatal(TrapError::HandlerFailure("handler refused the call".to_string()))
    );
    assert_eq!(handler_calls(&registry, 9), (1, 0, 0));
    assert_eq!(backend.status, ExecStatus::Stopped(StopReason::HandlerFailure));
}

#[test]
fn scenario_write_syscall_invokes_write_collaborator_once() {
    // Supervisor call, operand 0, syscall-number register holding the
    // "write" identifier.
    let write_impl = CountingSyscall::new();
    let read_impl = CountingSyscall::new();
    let mut table: DispatchTable<&CountingSyscall> = DispatchTable::new();
    assert!(table.insert(64, &write_impl));
    assert!(table.insert(63, &read_impl));
    let registry: HandlerRegistry<&CountingHandler> = HandlerRegistry::new();

    let mut backend = svc_backend(64);
    let r = arm64_syscall_handler_dynarmic(0, &mut backend, &registry, &table);
    assert_eq!(r, TrapOutcome::Continue);
    assert_eq!(write_impl.calls.get(), 1);
    assert_eq!(read_impl.calls.get(), 0);
}

#[test]
fn scenario_breakpoint_aborts_without_dispatch() {
    let bystander = CountingHandler::new(Plan::Void);
    let mut registry: HandlerRegistry<&CountingHandler> = HandlerRegistry::new();
    assert!(registry.register(5, &bystander));
    let write_impl = CountingSyscall::new();
    let mut table: DispatchTable<&CountingSyscall> = DispatchTable::new();
    assert!(table.insert(64, &write_impl));

    let mut backend = svc_backend(64);
    let r = arm64_syscall_handler_unicorn(EXCP_BKPT, 5, &mut backend, &registry, &table);
    assert_eq!(
        r,
        TrapOutcome::Fatal(TrapError::UnsupportedTrap(ExceptionClass::Breakpoint))
    );
    assert_eq!(handler_calls(&registry, 5), (0, 0, 0));
    assert_eq!(write_impl.calls.get(), 0);
    assert_eq!(backend.status, ExecStatus::Stopped(StopReason::UnsupportedTrap));
    // The register context is intact and can still be dumped in full.
    let dump = backend.context_snapshot();
    assert_eq!(dump.len(), 33);
    assert_eq!(dump[8], 64);
}

#[test]
fn undefined_instruction_aborts_with_full_context_dump() {
    let registry: HandlerRegistry<&CountingHandler> = HandlerRegistry::new();
    let table: DispatchTable<&CountingSyscall> = DispatchTable::new();

    let mut backend = svc_backend(64);
    backend.reg_write(Reg::X30, 0xdead);
    let r = arm64_syscall_handler_unicorn(EXCP_UDEF, 0, &mut backend, &registry, &table);
    assert_eq!(
        r,
        TrapOutcome::Fatal(TrapError::UnsupportedTrap(ExceptionClass::UndefinedInstruction))
    );
    assert_eq!(backend.status, ExecStatus::Stopped(StopReason::UnsupportedTrap));
    let dump = backend.context_snapshot();
    assert_eq!(dump.len(), 33);
    assert_eq!(dump[30], 0xdead);
}

#[test]
fn scenario_pop_context_observed_by_caller_without_table_lookup() {
    let write_impl = CountingSyscall::new();
    let mut table: DispatchTable<&CountingSyscall> = DispatchTable::new();
    assert!(table.insert(64, &write_impl));
    let registry: HandlerRegistry<&CountingHandler> = HandlerRegistry::new();

    let mut backend = svc_backend(64);
    let r = arm64_syscall_handler_unicorn(EXCP_SWI, 0xffff, &mut backend, &registry, &table);
    assert_eq!(r, TrapOutcome::PopContext);
    assert_eq!(write_impl.calls.get(), 0);
    assert_eq!(backend.status, ExecStatus::Running);
}

#[test]
fn both_entry_points_agree_on_the_same_trap() {
    for operand in [0u16, 5, 5000, 0xfffe, 0xffff] {
        let handler = CountingHandler::new(Plan::Void);
        let mut registry: HandlerRegistry<&CountingHandler> = HandlerRegistry::new();
        assert!(registry.register(5, &handler));
        let write_impl = CountingSyscall::new();
        let mut table: DispatchTable<&CountingSyscall> = DispatchTable::new();
        assert!(table.insert(64, &write_impl));

        let mut via_unicorn = svc_backend(64);
        let mut via_dynarmic = svc_backend(64);
        let ru =
            arm64_syscall_handler_unicorn(EXCP_SWI, operand, &mut via_unicorn, &registry, &table);
        let rd = arm64_syscall_handler_dynarmic(operand, &mut via_dynarmic, &registry, &table);
        assert_eq!(ru, rd);
        assert_eq!(via_unicorn.status, via_dynarmic.status);
    }
}

#[test]
fn handle_trap_takes_the_event_as_delivered() {
    let registry: HandlerRegistry<&CountingHandler> = HandlerRegistry::new();
    let table: DispatchTable<&CountingSyscall> = DispatchTable::new();
    let mut backend = svc_backend(0);
    let ev = TrapEvent {
        exception_class: ExceptionClass::SupervisorCall,
        operand: 0xffff,
        program_counter: 0x4000,
    };
    let r = handle_trap(&ev, &mut backend, &registry, &table);
    assert_eq!(r, TrapOutcome::PopContext);
}
