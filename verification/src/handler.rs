use vstd::prelude::*;

use std::collections::HashMap;

use crate::backend::Backend;

verus! {

broadcast use vstd::std_specs::hash::group_hash_axioms;

/// What a handler's `handle` operation reports: success with no result,
/// success with a numeric result destined for the result register, or an
/// explicit failure carrying a diagnostic.
#[derive(Debug, PartialEq, Eq)]
pub enum HandlerOutcome {
    Void,
    Value(i64),
    Failure(String),
}

/// A dynamically registered supervisor handler, installed by an external
/// hook-management collaborator and invoked by trap operand. `handle` runs
/// when a trap names this handler's id directly; the two callbacks are the
/// pre/post notifications delivered over the side-channel ABI. Each
/// operation receives the backend and may read or write guest registers.
pub trait Handler {
    /// Handle a trap whose operand is this handler's id.
    fn handle(&self, backend: &mut Backend) -> HandlerOutcome;

    /// Notification that fires before the hooked call's effects are visible.
    fn on_pre_callback(&self, backend: &mut Backend);

    /// Notification that fires after the hooked call's effects are visible.
    fn on_post_callback(&self, backend: &mut Backend);
}

/// Ids an ordinary handler may be registered under. Operand 0 always means
/// "real kernel syscall" and 0xffff / 0xfffe are the reserved context-switch
/// sentinels, so none of the three may ever name a handler.
pub open spec fn valid_handler_id(id: u32) -> bool {
    id != 0 && id != 0xfffe && id != 0xffff
}

/// The mapping from numeric id to registered handler, looked up at trap
/// time. Registration is serialized by the owning collaborator; lookups are
/// read-only.
pub struct HandlerRegistry<H> {
    map: HashMap<u32, H>,
}

impl<H> View for HandlerRegistry<H> {
    type V = Map<u32, H>;

    closed spec fn view(&self) -> Map<u32, H> {
        self.map@
    }
}

impl<H> HandlerRegistry<H> {
    /// Every registered id is one an ordinary handler may use: never 0 and
    /// never a context-switch sentinel.
    pub open spec fn wf(self) -> bool {
        forall|id: u32| self@.contains_key(id) ==> valid_handler_id(id)
    }

    /// An empty registry.
    pub fn new() -> (r: HandlerRegistry<H>)
        ensures
            r@ == Map::<u32, H>::empty(),
            r.wf(),
    {
        HandlerRegistry { map: HashMap::new() }
    }

    /// Register `h` under `id`, replacing any handler already there. A
    /// reserved id (0 or a sentinel) is rejected and the registry is left
    /// unchanged.
    pub fn register(&mut self, id: u32, h: H) -> (ok: bool)
        requires
            old(self).wf(),
        ensures
            ok == valid_handler_id(id),
            final(self).wf(),
            ok ==> final(self)@ == old(self)@.insert(id, h),
            !ok ==> final(self)@ == old(self)@,
    {
        if id != 0 && id != 0xfffe && id != 0xffff {
            self.map.insert(id, h);
            true
        } else {
            false
        }
    }

    /// Remove the handler registered under `id`, if any, and hand it back.
    pub fn remove(&mut self, id: u32) -> (h: Option<H>)
        requires
            old(self).wf(),
        ensures
            final(self)@ == old(self)@.remove(id),
            final(self).wf(),
            h matches Some(v) ==> old(self)@.contains_key(id) && v == old(self)@[id],
            h is None ==> !old(self)@.contains_key(id),
    {
        self.map.remove(&id)
    }

    /// Look up the handler registered under `id`.
    pub fn get(&self, id: u32) -> (h: Option<&H>)
        ensures
            h matches Some(v) ==> self@.contains_key(id) && *v == self@[id],
            h is None ==> !self@.contains_key(id),
    {
        self.map.get(&id)
    }

    /// Whether some handler is registered under `id`.
    pub fn contains(&self, id: u32) -> (b: bool)
        ensures
            b == self@.contains_key(id),
    {
        self.map.contains_key(&id)
    }
}

} // verus!
