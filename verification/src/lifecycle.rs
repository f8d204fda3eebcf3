//! The life of the native handle: allocated once, opened and closed any number of times,
//! freed once, and never touched again.
//!
//! Two choices are made here. The interface can be selected only while the handle is
//! allocated and not open: asking later is a broken precondition, not an error to recover
//! from. And a close keeps the handle, so that it can be opened again; giving the handle
//! back is a call of its own, permitted only once the device is closed.

use vstd::prelude::*;
use crate::call::{Call, Reply};
use crate::error::Error;
use crate::status::{outcome, result_view, translate, violates};

verus! {

/// Where the native handle stands.
#[derive(Debug, Clone, Copy, PartialEq, Eq, Structural)]
pub enum Phase {
    /// No native handle exists yet.
    Unallocated,
    /// The handle exists and is bound to no device.
    Allocated,
    /// The handle is bound to a device.
    Open,
    /// The handle has been given back to the driver.
    Freed,
}

/// The part that a native call plays in the life of the handle.
#[derive(Debug, Clone, Copy, PartialEq, Eq, Structural)]
pub enum Role {
    /// Creates the handle.
    Allocate,
    /// Configures the handle for the open to come.
    Prepare,
    /// Binds the handle to a device.
    Open,
    /// Configures the open device or moves bytes.
    Use,
    /// Lets the device go and keeps the handle.
    Close,
    /// Gives the handle back.
    Free,
}

/// One native call that was made, and whether it succeeded.
pub struct Event {
    pub role: Role,
    pub succeeded: bool,
}

/// Whether a call of `role` may be made on a handle in `phase`.
pub open spec fn permitted(phase: Phase, role: Role) -> bool {
    match role {
        Role::Allocate => phase is Unallocated,
        Role::Prepare | Role::Open | Role::Free => phase is Allocated,
        Role::Use | Role::Close => phase is Open,
    }
}

/// Where a permitted call of `role` leaves the handle.
///
/// A failed allocation leaves no handle and a failed open leaves the handle unbound. A
/// close lets the device go even where it reports a failure.
pub open spec fn after(phase: Phase, role: Role, succeeded: bool) -> Phase {
    match role {
        Role::Allocate => if succeeded {
            Phase::Allocated
        } else {
            Phase::Unallocated
        },
        Role::Open => if succeeded {
            Phase::Open
        } else {
            Phase::Allocated
        },
        Role::Prepare | Role::Close => Phase::Allocated,
        Role::Use => Phase::Open,
        Role::Free => Phase::Freed,
    }
}

/// The phase that a history of calls ends in, where every call in it was permitted when it
/// was made; `None` where one was not.
pub open spec fn replay(history: Seq<Event>) -> Option<Phase>
    decreases history.len(),
{
    if history.len() == 0 {
        Some(Phase::Unallocated)
    } else {
        match replay(history.drop_last()) {
            Some(phase) => if permitted(phase, history.last().role) {
                Some(after(phase, history.last().role, history.last().succeeded))
            } else {
                None
            },
            None => None,
        }
    }
}

/// How many times the history frees the handle.
pub open spec fn frees(history: Seq<Event>) -> nat
    decreases history.len(),
{
    if history.len() == 0 {
        0
    } else {
        frees(history.drop_last()) + if history.last().role is Free {
            1nat
        } else {
            0nat
        }
    }
}

/// How many times the history allocates a handle with success.
pub open spec fn allocations(history: Seq<Event>) -> nat
    decreases history.len(),
{
    if history.len() == 0 {
        0
    } else {
        allocations(history.drop_last()) + if history.last().role is Allocate
            && history.last().succeeded {
            1nat
        } else {
            0nat
        }
    }
}

/// The record that the handle manager keeps of the native handle.
pub struct Handle {
    phase: Phase,
    history: Ghost<Seq<Event>>,
}

impl Handle {
    /// The phase on record.
    pub closed spec fn phase(&self) -> Phase {
        self.phase
    }

    /// Every native call made for this handle so far, in order.
    pub closed spec fn history(&self) -> Seq<Event> {
        self.history@
    }

    /// The phase on record is the one that the calls made so far lead to.
    pub open spec fn well_formed(&self) -> bool {
        replay(self.history()) == Some(self.phase())
    }

    /// The record of a handle that does not exist yet.
    pub fn new() -> (handle: Handle)
        ensures
            handle.well_formed(),
            handle.phase() is Unallocated,
            handle.history() == Seq::<Event>::empty(),
    {
        Handle { phase: Phase::Unallocated, history: Ghost(Seq::empty()) }
    }

    pub fn current_phase(&self) -> (phase: Phase)
        ensures
            phase == self.phase(),
    {
        self.phase
    }

    /// Whether a call of `role` may be made now.
    pub fn permits(&self, role: Role) -> (b: bool)
        ensures
            b == permitted(self.phase(), role),
    {
        match role {
            Role::Allocate => matches!(self.phase, Phase::Unallocated),
            Role::Prepare | Role::Open | Role::Free => matches!(self.phase, Phase::Allocated),
            Role::Use | Role::Close => matches!(self.phase, Phase::Open),
        }
    }

    /// Puts on record that a call of `role` was made and how it ended.
    pub fn record(&mut self, role: Role, succeeded: bool)
        requires
            old(self).well_formed(),
            permitted(old(self).phase(), role),
        ensures
            final(self).well_formed(),
            final(self).phase() == after(old(self).phase(), role, succeeded),
            final(self).history() == old(self).history().push(Event { role, succeeded }),
    {
        let next = match role {
            Role::Allocate => if succeeded {
                Phase::Allocated
            } else {
                Phase::Unallocated
            },
            Role::Open => if succeeded {
                Phase::Open
            } else {
                Phase::Allocated
            },
            Role::Prepare | Role::Close => Phase::Allocated,
            Role::Use => Phase::Open,
            Role::Free => Phase::Freed,
        };
        proof {
            let extended = self.history@.push(Event { role, succeeded });
            assert(extended.drop_last() =~= self.history@);
        }
        self.phase = next;
        self.history = Ghost(self.history@.push(Event { role, succeeded }));
    }

    /// Takes the reply to a native call that was made on the handle: puts the call on
    /// record, and reads the reply by the table of the call's category.
    pub fn complete(&mut self, call: Call, reply: &Reply) -> (r: Result<u32, Error>)
        requires
            old(self).well_formed(),
            permitted(old(self).phase(), call.role()),
            !violates(call.category(), reply.status as int),
        ensures
            final(self).well_formed(),
            final(self).phase() == after(old(self).phase(), call.role(), reply.status >= 0),
            final(self).history() == old(self).history().push(
                Event { role: call.role(), succeeded: reply.status >= 0 },
            ),
            result_view(r) == outcome(
                call.category(),
                reply.status as int,
                reply.value,
                reply.diagnostic@,
            ),
            r is Ok <==> reply.status >= 0,
    {
        let category = call.category_of();
        self.record(category.role_of(), reply.status >= 0);
        translate(category, reply.status, reply.value, reply.diagnostic.as_str())
    }
}

/// Once the handle is freed no call is permitted: nothing operates on it afterwards, and it
/// cannot be freed a second time.
pub proof fn lemma_freed_is_final(history: Seq<Event>, event: Event)
    requires
        replay(history) == Some(Phase::Freed),
    ensures
        replay(history.push(event)) is None,
{
    assert(history.push(event).drop_last() =~= history);
}

/// Every history of permitted calls allocates at most one handle, and frees it exactly once
/// if it ends with the handle freed and not at all otherwise.
pub proof fn lemma_freed_exactly_once(history: Seq<Event>)
    requires
        replay(history) is Some,
    ensures
        allocations(history) <= 1,
        frees(history) <= allocations(history),
        replay(history) == Some(Phase::Unallocated) <==> allocations(history) == 0,
        replay(history) == Some(Phase::Freed) <==> frees(history) == 1,
        replay(history) == Some(Phase::Allocated) || replay(history) == Some(Phase::Open) <==> (
        allocations(history) == 1 && frees(history) == 0),
    decreases history.len(),
{
    if history.len() > 0 {
        lemma_freed_exactly_once(history.drop_last());
    }
}

/// In a history of permitted calls a free is the last call.
pub proof fn lemma_free_comes_last(history: Seq<Event>, i: int)
    requires
        replay(history) is Some,
        0 <= i < history.len(),
        history[i].role is Free,
    ensures
        i == history.len() - 1,
        replay(history) == Some(Phase::Freed),
    decreases history.len(),
{
    if i < history.len() - 1 {
        let earlier = history.drop_last();
        assert(earlier[i] == history[i]);
        lemma_free_comes_last(earlier, i);
    }
}

/// A history of permitted calls begins with an allocation, and no call comes before a
/// successful one but failed allocations.
pub proof fn lemma_allocation_comes_first(history: Seq<Event>, i: int)
    requires
        replay(history) is Some,
        0 <= i < history.len(),
        !(history[i].role is Allocate),
    ensures
        allocations(history.take(i)) == 1,
    decreases history.len(),
{
    let earlier = history.drop_last();
    if i < history.len() - 1 {
        assert(earlier[i] == history[i]);
        lemma_allocation_comes_first(earlier, i);
        assert(earlier.take(i) =~= history.take(i));
    } else {
        assert(history.take(i) =~= earlier);
        lemma_freed_exactly_once(earlier);
    }
}

} // verus!
