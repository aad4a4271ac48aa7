use std::cell::Cell;

use trap_dispatch::backend::{Backend, EngineKind, ExecStatus, Reg, StopReason};
use trap_dispatch::classifier::{
    exception_class_of_intno, recover_operand, ExceptionClass, TrapError, TrapOutcome,
};
use trap_dispatch::dispatch::{syscall, DispatchTable, SyscallCollaborator};
use trap_dispatch::handler::{Handler, HandlerOutcome, HandlerRegistry};
use trap_dispatch::syscalls::Syscalls;

struct NoopHandler;

impl Handler for NoopHandler {
    fn handle(&self, _backend: &mut Backend) -> HandlerOutcome {
        HandlerOutcome::Void
    }

    fn on_pre_callback(&self, _backend: &mut Backend) {}

    fn on_post_callback(&self, _backend: &mut Backend) {}
}

struct RecordingSyscall {
    calls: Cell<u32>,
    seen_x1: Cell<u64>,
}

impl SyscallCollaborator for &RecordingSyscall {
    fn invoke(&self, backend: &mut Backend) {
        self.calls.set(self.calls.get() + 1);
        self.seen_x1.set(backend.reg_read(Reg::X1));
        backend.reg_write(Reg::X0, 7);
    }
}

#[test]
fn fresh_backend_runs_with_zeroed_registers() {
    let backend = Backend::new(EngineKind::Interpretive);
    assert_eq!(backend.kind, EngineKind::Interpretive);
    assert_eq!(backend.status, ExecStatus::Running);
    for dumped in backend.context_snapshot() {
        assert_eq!(dumped, 0);
    }
}

#[test]
fn register_writes_land_on_the_named_register_only() {
    let mut backend = Backend::new(EngineKind::Jit);
    backend.reg_write(Reg::X0, 1);
    backend.reg_write(Reg::X8, 64);
    backend.reg_write(Reg::X30, 30);
    backend.reg_write(Reg::Sp, 0x7fff0000);
    backend.reg_write(Reg::Pc, 0x4004);
    assert_eq!(backend.reg_read(Reg::X0), 1);
    assert_eq!(backend.reg_read(Reg::X1), 0);
    assert_eq!(backend.reg_read(Reg::X8), 64);
    assert_eq!(backend.reg_read(Reg::X30), 30);
    assert_eq!(backend.reg_read(Reg::Sp), 0x7fff0000);
    assert_eq!(backend.reg_read(Reg::Pc), 0x4004);

    let dump = backend.context_snapshot();
    assert_eq!(dump.len(), 33);
    assert_eq!(dump[0], 1);
    assert_eq!(dump[8], 64);
    assert_eq!(dump[30], 30);
    assert_eq!(dump[31], 0x7fff0000);
    assert_eq!(dump[32], 0x4004);
}

#[test]
fn signed_register_writes_store_twos_complement_bits() {
    let mut backend = Backend::new(EngineKind::Jit);
    backend.reg_write_i64(Reg::X0, -2);
    assert_eq!(backend.reg_read(Reg::X0), u64::MAX - 1);
    backend.reg_write_i64(Reg::X0, 42);
    assert_eq!(backend.reg_read(Reg::X0), 42);
}

#[test]
fn stopping_records_the_reason_and_keeps_registers() {
    let mut backend = Backend::new(EngineKind::Jit);
    backend.reg_write(Reg::X5, 55);
    backend.emu_stop(StopReason::HandlerFailure);
    assert_eq!(backend.status, ExecStatus::Stopped(StopReason::HandlerFailure));
    assert_eq!(backend.reg_read(Reg::X5), 55);
}

#[test]
fn reserved_handler_ids_are_rejected() {
    let mut registry: HandlerRegistry<NoopHandler> = HandlerRegistry::new();
    assert!(!registry.register(0, NoopHandler));
    assert!(!registry.register(0xfffe, NoopHandler));
    assert!(!registry.register(0xffff, NoopHandler));
    assert!(!registry.contains(0));
    assert!(!registry.contains(0xfffe));
    assert!(!registry.contains(0xffff));
    assert!(registry.register(1, NoopHandler));
    assert!(registry.register(0xfffd, NoopHandler));
    assert!(registry.contains(1));
    assert!(registry.contains(0xfffd));
}

#[test]
fn registry_lookup_and_removal_follow_registration() {
    let mut registry: HandlerRegistry<NoopHandler> = HandlerRegistry::new();
    assert!(registry.get(5).is_none());
    assert!(registry.register(5, NoopHandler));
    assert!(registry.get(5).is_some());
    assert!(registry.remove(5).is_some());
    assert!(registry.get(5).is_none());
    assert!(registry.remove(5).is_none());
}

#[test]
fn dispatch_table_accepts_only_canonical_numbers() {
    let entry = RecordingSyscall { calls: Cell::new(0), seen_x1: Cell::new(0) };
    let mut table: DispatchTable<&RecordingSyscall> = DispatchTable::new();
    assert!(table.insert(64, &entry));
    assert!(table.insert(1024, &entry));
    assert!(!table.insert(300, &entry));
    assert!(!table.insert(1080, &entry));
    assert!(!table.insert(u64::MAX, &entry));
    assert!(table.contains(64));
    assert!(table.contains(1024));
    assert!(!table.contains(300));
    assert!(table.get(64).is_some());
    assert!(table.get(300).is_none());
}

#[test]
fn routed_collaborator_sees_the_current_backend() {
    let entry = RecordingSyscall { calls: Cell::new(0), seen_x1: Cell::new(0) };
    let mut table: DispatchTable<&RecordingSyscall> = DispatchTable::new();
    assert!(table.insert(64, &entry));

    let mut backend = Backend::new(EngineKind::Jit);
    backend.reg_write(Reg::X1, 0xbeef);
    let r = syscall(Syscalls::__NR_write, &mut backend, &table);
    assert_eq!(r, TrapOutcome::Continue);
    assert_eq!(entry.calls.get(), 1);
    assert_eq!(entry.seen_x1.get(), 0xbeef);
    assert_eq!(backend.reg_read(Reg::X0), 7);
}

#[test]
fn unrouted_syscall_is_fatal_and_cites_its_number() {
    let table: DispatchTable<&RecordingSyscall> = DispatchTable::new();
    let mut backend = Backend::new(EngineKind::Jit);
    let r = syscall(Syscalls::__NR_adjtimex, &mut backend, &table);
    assert_eq!(r, TrapOutcome::Fatal(TrapError::UnknownSyscallNumber(171)));
    assert_eq!(backend.status, ExecStatus::Stopped(StopReason::UnknownSyscallNumber));
}

#[test]
fn operand_recovery_reads_the_immediate_field() {
    // svc #0 encodes as 0xd4000001.
    assert_eq!(recover_operand(0x01, 0x00, 0x00, 0xd4), 0);
    // svc #0x1234 encodes as 0xd4024681.
    assert_eq!(recover_operand(0x81, 0x46, 0x02, 0xd4), 0x1234);
    // svc #0xffff encodes as 0xd41fffe1.
    assert_eq!(recover_operand(0xe1, 0xff, 0x1f, 0xd4), 0xffff);
    // svc #0xfffe encodes as 0xd41fffc1.
    assert_eq!(recover_operand(0xc1, 0xff, 0x1f, 0xd4), 0xfffe);
}

#[test]
fn raw_trap_numbers_map_to_their_exception_classes() {
    assert_eq!(exception_class_of_intno(1), Some(ExceptionClass::UndefinedInstruction));
    assert_eq!(exception_class_of_intno(2), Some(ExceptionClass::SupervisorCall));
    assert_eq!(exception_class_of_intno(7), Some(ExceptionClass::Breakpoint));
    assert_eq!(exception_class_of_intno(0), None);
    assert_eq!(exception_class_of_intno(3), None);
    assert_eq!(exception_class_of_intno(100), None);
}
