use vstd::prelude::*;

use std::collections::HashMap;

use crate::backend::{Backend, StopReason};
use crate::classifier::{TrapError, TrapOutcome};
use crate::syscalls::{spec_syscall_from_number, spec_syscall_number, syscall_number, Syscalls};

verus! {

broadcast use vstd::std_specs::hash::group_hash_axioms;

/// One syscall implementation: an external collaborator that receives the
/// backend, reads its own arguments from the standard argument registers,
/// manages its own side effects, and writes its own result register.
pub trait SyscallCollaborator {
    /// Emulate one kernel syscall against the current guest state.
    fn invoke(&self, backend: &mut Backend);
}

/// The routing table from canonical syscall numbers to syscall
/// implementations. It is populated once at startup and immutable during
/// dispatch; guest binaries encode the numeric ids directly, so the
/// populated mapping must stay complete and stable across the kernel
/// syscall range the supported binaries exercise.
pub struct DispatchTable<S> {
    map: HashMap<u64, S>,
}

impl<S> View for DispatchTable<S> {
    type V = Map<u64, S>;

    closed spec fn view(&self) -> Map<u64, S> {
        self.map@
    }
}

impl<S> DispatchTable<S> {
    /// Every populated key is a canonical syscall number.
    pub open spec fn wf(self) -> bool {
        forall|nr: u64| self@.contains_key(nr) ==> spec_syscall_from_number(nr) != Syscalls::Unknown
    }

    /// An empty table.
    pub fn new() -> (t: DispatchTable<S>)
        ensures
            t@ == Map::<u64, S>::empty(),
            t.wf(),
    {
        DispatchTable { map: HashMap::new() }
    }

    /// Populate the entry for syscall number `nr`, replacing any
    /// implementation already routed there. A number outside the canonical
    /// ABI mapping is rejected and the table is left unchanged.
    pub fn insert(&mut self, nr: u64, s: S) -> (ok: bool)
        requires
            old(self).wf(),
        ensures
            ok == (spec_syscall_from_number(nr) != Syscalls::Unknown),
            final(self).wf(),
            ok ==> final(self)@ == old(self)@.insert(nr, s),
            !ok ==> final(self)@ == old(self)@,
    {
        let known = crate::syscalls::syscall_from_number(nr);
        if known != Syscalls::Unknown {
            self.map.insert(nr, s);
            true
        } else {
            false
        }
    }

    /// Look up the implementation routed from syscall number `nr`.
    pub fn get(&self, nr: u64) -> (s: Option<&S>)
        ensures
            s matches Some(v) ==> self@.contains_key(nr) && *v == self@[nr],
            s is None ==> !self@.contains_key(nr),
    {
        self.map.get(&nr)
    }

    /// Whether an implementation is routed from syscall number `nr`.
    pub fn contains(&self, nr: u64) -> (b: bool)
        ensures
            b == self@.contains_key(nr),
    {
        self.map.contains_key(&nr)
    }
}

/// Route one kernel syscall through the dispatch table. A populated entry
/// is invoked with the current backend and guest execution may resume; a
/// missing entry is fatal for the epoch: execution stops and the diagnostic
/// names the missing number.
pub fn syscall<S: SyscallCollaborator>(
    nr: Syscalls,
    backend: &mut Backend,
    table: &DispatchTable<S>,
) -> (r: TrapOutcome)
    ensures
        table@.contains_key(spec_syscall_number(nr)) ==> r == TrapOutcome::Continue,
        !table@.contains_key(spec_syscall_number(nr)) ==> {
            &&& r == TrapOutcome::Fatal(TrapError::UnknownSyscallNumber(spec_syscall_number(nr)))
            &&& *final(backend) == old(backend).with_status(
                crate::backend::ExecStatus::Stopped(StopReason::UnknownSyscallNumber),
            )
        },
{
    let key = syscall_number(nr);
    match table.get(key) {
        Some(collaborator) => {
            collaborator.invoke(backend);
            TrapOutcome::Continue
        },
        None => {
            backend.emu_stop(StopReason::UnknownSyscallNumber);
            TrapOutcome::Fatal(TrapError::UnknownSyscallNumber(key))
        },
    }
}

} // verus!
