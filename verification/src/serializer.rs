//! The invocation serializer: the phases that one invocation goes through,
//! and the bookkeeping that lets one invocation at a time hold the engine.
//!
//! The host performs what an `Action` names (waiting, running a script,
//! driving the event loop) and reports what came of it as an `Event`.

use vstd::prelude::*;

verus! {

/// Where an invocation stands.
#[derive(Debug, Clone, Copy, PartialEq, Eq, Structural)]
pub enum Phase {
    /// Enrolled; it does not hold the engine yet.
    Idle,
    /// It holds the engine.
    Locked,
    /// Its call has been handed to the engine.
    Calling,
    /// The engine's event loop is driven until the call settles.
    Settling,
    /// The call was fulfilled.
    Fulfilled,
    /// The call failed.
    Rejected,
    /// It has given the engine back.
    Released,
}

/// What the host reports.
#[derive(Debug, Clone, Copy, PartialEq, Eq, Structural)]
pub enum Event {
    /// The invocation asks for the engine.
    Acquire,
    /// The call has been phrased.
    CallBuilt,
    /// The engine took the call and returned a promise.
    CallStarted,
    /// The engine refused the call, or the call threw at once.
    CallFaulted,
    /// The event loop was driven and the promise is still pending.
    StillPending,
    /// The promise was fulfilled.
    PromiseFulfilled,
    /// The promise was rejected, or the event loop failed.
    PromiseRejected,
    /// The result has been taken over.
    ResultTaken,
}

/// What the host is to do next.
#[derive(Debug, Clone, Copy, PartialEq, Eq, Structural)]
pub enum Action {
    /// Nothing: the event does not belong to the phase.
    Nothing,
    /// Wait and ask again: another invocation holds the engine.
    Wait,
    /// Phrase the call.
    BuildCall,
    /// Hand the call to the engine.
    RunScript,
    /// Drive the engine's event loop once more.
    PumpEventLoop,
    /// Read the result.
    TakeResult,
    /// Answer the request: the engine has been given back.
    Respond,
}

impl Phase {
    /// Whether an invocation in this phase holds the engine.
    pub open spec fn holds_engine(self) -> bool {
        !(self is Idle) && !(self is Released)
    }

    /// The phase that follows on an event, given whether the engine is free.
    pub open spec fn after(self, event: Event, engine_free: bool) -> Phase {
        match (self, event) {
            (Phase::Idle, Event::Acquire) => if engine_free {
                Phase::Locked
            } else {
                Phase::Idle
            },
            (Phase::Locked, Event::CallBuilt) => Phase::Calling,
            (Phase::Calling, Event::CallStarted) => Phase::Settling,
            (Phase::Calling, Event::CallFaulted) => Phase::Rejected,
            (Phase::Settling, Event::StillPending) => Phase::Settling,
            (Phase::Settling, Event::PromiseFulfilled) => Phase::Fulfilled,
            (Phase::Settling, Event::PromiseRejected) => Phase::Rejected,
            (Phase::Fulfilled, Event::ResultTaken) => Phase::Released,
            (Phase::Rejected, Event::ResultTaken) => Phase::Released,
            _ => self,
        }
    }

    /// What the host is to do after an event, given whether the engine is
    /// free.
    pub open spec fn action(self, event: Event, engine_free: bool) -> Action {
        match (self, event) {
            (Phase::Idle, Event::Acquire) => if engine_free {
                Action::BuildCall
            } else {
                Action::Wait
            },
            (Phase::Locked, Event::CallBuilt) => Action::RunScript,
            (Phase::Calling, Event::CallStarted) => Action::PumpEventLoop,
            (Phase::Calling, Event::CallFaulted) => Action::TakeResult,
            (Phase::Settling, Event::StillPending) => Action::PumpEventLoop,
            (Phase::Settling, Event::PromiseFulfilled) => Action::TakeResult,
            (Phase::Settling, Event::PromiseRejected) => Action::TakeResult,
            (Phase::Fulfilled, Event::ResultTaken) => Action::Respond,
            (Phase::Rejected, Event::ResultTaken) => Action::Respond,
            _ => Action::Nothing,
        }
    }

    /// The phase that follows on an event and what the host is to do.
    pub fn step(self, event: Event, engine_free: bool) -> (r: (Phase, Action))
        ensures
            r.0 == self.after(event, engine_free),
            r.1 == self.action(event, engine_free),
    {
        match (self, event) {
            (Phase::Idle, Event::Acquire) => if engine_free {
                (Phase::Locked, Action::BuildCall)
            } else {
                (Phase::Idle, Action::Wait)
            },
            (Phase::Locked, Event::CallBuilt) => (Phase::Calling, Action::RunScript),
            (Phase::Calling, Event::CallStarted) => (Phase::Settling, Action::PumpEventLoop),
            (Phase::Calling, Event::CallFaulted) => (Phase::Rejected, Action::TakeResult),
            (Phase::Settling, Event::StillPending) => (Phase::Settling, Action::PumpEventLoop),
            (Phase::Settling, Event::PromiseFulfilled) => (Phase::Fulfilled, Action::TakeResult),
            (Phase::Settling, Event::PromiseRejected) => (Phase::Rejected, Action::TakeResult),
            (Phase::Fulfilled, Event::ResultTaken) => (Phase::Released, Action::Respond),
            (Phase::Rejected, Event::ResultTaken) => (Phase::Released, Action::Respond),
            _ => (self, Action::Nothing),
        }
    }
}

/// How many of the phases are `Released`.
pub open spec fn released_count(phases: Seq<Phase>) -> nat
    decreases phases.len(),
{
    if phases.len() == 0 {
        0
    } else {
        released_count(phases.drop_last()) + if phases.last() is Released {
            1nat
        } else {
            0nat
        }
    }
}

/// No more phases are released than there are phases.
proof fn released_count_bound(phases: Seq<Phase>)
    ensures
        released_count(phases) <= phases.len(),
    decreases phases.len(),
{
    if phases.len() > 0 {
        released_count_bound(phases.drop_last());
    }
}

/// What a change of one phase does to the count.
proof fn released_count_update(phases: Seq<Phase>, i: int, p: Phase)
    requires
        0 <= i < phases.len(),
    ensures
        released_count(phases.update(i, p)) + (if phases[i] is Released {
            1nat
        } else {
            0nat
        }) == released_count(phases) + (if p is Released {
            1nat
        } else {
            0nat
        }),
    decreases phases.len(),
{
    let changed = phases.update(i, p);
    if i == phases.len() - 1 {
        assert(changed.drop_last() =~= phases.drop_last());
    } else {
        assert(changed.drop_last() =~= phases.drop_last().update(i, p));
        released_count_update(phases.drop_last(), i, p);
    }
}

/// The engine's serializer: every enrolled invocation with its phase.
#[derive(Debug)]
pub struct Serializer {
    phases: Vec<Phase>,
    holder: Option<usize>,
    completed: usize,
}

impl Serializer {
    /// The phases of the invocations, by the number under which each was
    /// enrolled.
    pub closed spec fn phases(&self) -> Seq<Phase> {
        self.phases@
    }

    /// The invocation that holds the engine, if one does.
    pub closed spec fn holder(&self) -> Option<usize> {
        self.holder
    }

    /// How many invocations have completed.
    pub closed spec fn completed(&self) -> nat {
        self.completed as nat
    }

    /// What holds of every serializer: the holder, and no other invocation,
    /// is in a phase that holds the engine; and the completions are counted.
    pub open spec fn wf(&self) -> bool {
        &&& forall|i: int|
            0 <= i < self.phases().len() ==> ((#[trigger] self.phases()[i]).holds_engine() <==> (
            self.holder() matches Some(h) && h == i))
        &&& self.holder() matches Some(h) ==> h < self.phases().len()
        &&& self.completed() == released_count(self.phases())
    }

    /// Who holds the engine after invocation `id` has taken a step on the
    /// event: the invocation itself while it is past `Idle` and not yet
    /// `Released`, nobody once it has given the engine back, and else
    /// whoever held it before.
    pub open spec fn holder_after(&self, id: usize, event: Event) -> Option<usize> {
        let before = self.phases()[id as int];
        let next = before.after(event, self.holder() is None);
        if next.holds_engine() {
            Some(id)
        } else if before.holds_engine() {
            None
        } else {
            self.holder()
        }
    }

    /// The completions after invocation `id` has taken a step on the event:
    /// one more where the step takes it to `Released`.
    pub open spec fn completed_after(&self, id: usize, event: Event) -> nat {
        let before = self.phases()[id as int];
        let next = before.after(event, self.holder() is None);
        if next is Released && !(before is Released) {
            self.completed() + 1
        } else {
            self.completed()
        }
    }

    /// A serializer without invocations: the engine is free.
    pub fn new() -> (s: Serializer)
        ensures
            s.wf(),
            s.phases().len() == 0,
            s.holder() is None,
            s.completed() == 0,
    {
        Serializer { phases: Vec::new(), holder: None, completed: 0 }
    }

    /// Enrolls an invocation and gives its number. It starts `Idle`.
    pub fn enroll(&mut self) -> (id: usize)
        requires
            old(self).wf(),
            old(self).phases().len() < usize::MAX,
        ensures
            final(self).wf(),
            id == old(self).phases().len(),
            final(self).phases() == old(self).phases().push(Phase::Idle),
            final(self).holder() == old(self).holder(),
            final(self).completed() == old(self).completed(),
    {
        let id = self.phases.len();
        self.phases.push(Phase::Idle);
        proof {
            assert(self.phases@.drop_last() =~= old(self).phases@);
        }
        id
    }

    /// The phase of an invocation; nothing where no invocation was enrolled
    /// under the number.
    pub fn phase(&self, id: usize) -> (p: Option<Phase>)
        ensures
            p == if id < self.phases().len() {
                Some(self.phases()[id as int])
            } else {
                None
            },
    {
        if id < self.phases.len() {
            Some(self.phases[id])
        } else {
            None
        }
    }

    /// How many invocations were enrolled.
    pub fn enrolled(&self) -> (n: usize)
        ensures
            n == self.phases().len(),
    {
        self.phases.len()
    }

    /// How many invocations have completed.
    pub fn completions(&self) -> (n: usize)
        ensures
            n == self.completed(),
    {
        self.completed
    }

    /// Whether no invocation holds the engine.
    pub fn engine_free(&self) -> (b: bool)
        ensures
            b == (self.holder() is None),
    {
        self.holder.is_none()
    }

    /// Takes an invocation one step on: its phase becomes the one that
    /// follows on the event, all other invocations stay as they are, and
    /// the result is what the host is to do. An invocation gets the engine
    /// only while no other holds it, and a completion is counted when it
    /// gives the engine back. A number under which no invocation was
    /// enrolled changes nothing.
    pub fn drive(&mut self, id: usize, event: Event) -> (action: Action)
        requires
            old(self).wf(),
        ensures
            final(self).wf(),
            id >= old(self).phases().len() ==> action == Action::Nothing && final(self).phases()
                == old(self).phases() && final(self).holder() == old(self).holder() && final(self).completed() == old(self).completed(),
            id < old(self).phases().len() ==> final(self).phases() == old(self).phases().update(
                id as int,
                old(self).phases()[id as int].after(event, old(self).holder() is None),
            ) && action == old(self).phases()[id as int].action(event, old(self).holder() is None)
                && final(self).holder() == old(self).holder_after(id, event) && final(self).completed() == old(self).completed_after(id, event),
    {
        let total = self.phases.len();
        if id >= total {
            return Action::Nothing;
        }
        let before = self.phases[id];
        let free = self.holder.is_none();
        let (next, action) = before.step(event, free);
        proof {
            released_count_update(self.phases@, id as int, next);
            released_count_bound(self.phases@.update(id as int, next));
        }
        self.phases.set(id, next);
        if before == Phase::Idle && next == Phase::Locked {
            self.holder = Some(id);
        }
        if next == Phase::Released && before != Phase::Released {
            self.holder = None;
            self.completed = self.completed + 1;
        }
        action
    }
}

/// At every instant at most one invocation holds the engine: two
/// invocations that are both past `Idle` and not yet `Released` are one and
/// the same.
pub proof fn one_holder_at_most(s: Serializer, i: int, j: int)
    requires
        s.wf(),
        0 <= i < s.phases().len(),
        0 <= j < s.phases().len(),
        s.phases()[i].holds_engine(),
        s.phases()[j].holds_engine(),
    ensures
        i == j,
{
    assert(s.holder() matches Some(h) && h == i);
    assert(s.holder() matches Some(h) && h == j);
}

/// Once every invocation has given the engine back, there are as many
/// completions as invocations.
pub proof fn all_complete(s: Serializer)
    requires
        s.wf(),
        forall|i: int| 0 <= i < s.phases().len() ==> (#[trigger] s.phases()[i]) is Released,
    ensures
        s.completed() == s.phases().len(),
        s.holder() is None,
{
    all_released(s.phases());
    if let Some(h) = s.holder() {
        assert(s.phases()[h as int].holds_engine());
    }
}

/// Where every phase is `Released`, the count is the length.
proof fn all_released(phases: Seq<Phase>)
    requires
        forall|i: int| 0 <= i < phases.len() ==> (#[trigger] phases[i]) is Released,
    ensures
        released_count(phases) == phases.len(),
    decreases phases.len(),
{
    if phases.len() > 0 {
        assert forall|i: int| 0 <= i < phases.drop_last().len() implies (#[trigger] phases.drop_last()[i]) is Released by {
            assert(phases.drop_last()[i] == phases[i]);
        }
        all_released(phases.drop_last());
    }
}

} // verus!
