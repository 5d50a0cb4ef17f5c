//! Graceful lifecycle: run, drain on a termination signal, stop when empty.
//!
//! While running, the listener accepts connections. A termination signal
//! moves the coordinator to draining: no new connection is accepted, but
//! every request already in flight is kept and finishes normally. Only when
//! the last one has finished does the coordinator stop, so the process
//! never exits with work outstanding.

use vstd::prelude::*;

verus! {

#[derive(Clone, Copy, PartialEq, Eq, Structural, Debug)]
pub enum Phase {
    Running,
    Draining,
    Stopped,
}

/// The mathematical shadow of the coordinator: its phase and how many
/// requests are in flight.
pub ghost struct LifecycleModel {
    pub phase: Phase,
    pub in_flight: int,
}

/// What always holds: the process stops only once nothing is in flight.
pub open spec fn lifecycle_inv(m: LifecycleModel) -> bool {
    m.in_flight >= 0 && (m.phase is Stopped ==> m.in_flight == 0)
}

/// Whether the listener accepts new connections.
pub open spec fn accepting(m: LifecycleModel) -> bool {
    m.phase is Running
}

/// The coordinator after a termination signal: a running listener begins to
/// drain, keeping every in-flight request; a second signal changes nothing.
pub open spec fn signaled(m: LifecycleModel) -> LifecycleModel {
    if m.phase is Running {
        LifecycleModel { phase: Phase::Draining, ..m }
    } else {
        m
    }
}

/// The coordinator after a request starts (only a running listener admits
/// one).
pub open spec fn started(m: LifecycleModel) -> LifecycleModel {
    LifecycleModel { in_flight: m.in_flight + 1, ..m }
}

/// The coordinator after an in-flight request finishes: while draining, the
/// last one to finish stops the process.
pub open spec fn finished(m: LifecycleModel) -> LifecycleModel {
    if m.phase is Draining && m.in_flight == 1 {
        LifecycleModel { phase: Phase::Stopped, in_flight: 0 }
    } else {
        LifecycleModel { in_flight: m.in_flight - 1, ..m }
    }
}

/// The lifecycle coordinator.
pub struct Lifecycle {
    pub phase: Phase,
    pub in_flight: usize,
}

impl View for Lifecycle {
    type V = LifecycleModel;

    open spec fn view(&self) -> LifecycleModel {
        LifecycleModel { phase: self.phase, in_flight: self.in_flight as int }
    }
}

impl Lifecycle {
    pub open spec fn wf(&self) -> bool {
        lifecycle_inv(self@)
    }

    /// A fresh coordinator: running, nothing in flight.
    pub fn new() -> (r: Lifecycle)
        ensures
            r.wf(),
            r@.phase is Running,
            r@.in_flight == 0,
    {
        Lifecycle { phase: Phase::Running, in_flight: 0 }
    }

    /// A termination signal arrived.
    pub fn signal(&mut self)
        requires
            old(self).wf(),
        ensures
            final(self).wf(),
            final(self)@ == signaled(old(self)@),
    {
        if self.phase == Phase::Running {
            self.phase = Phase::Draining;
        }
    }

    /// A new connection asks to start a request; it is admitted only while
    /// the listener runs.
    pub fn try_start(&mut self) -> (admitted: bool)
        requires
            old(self).wf(),
            old(self)@.in_flight < usize::MAX,
        ensures
            final(self).wf(),
            admitted == accepting(old(self)@),
            admitted ==> final(self)@ == started(old(self)@),
            !admitted ==> final(self)@ == old(self)@,
    {
        if self.phase == Phase::Running {
            self.in_flight = self.in_flight + 1;
            true
        } else {
            false
        }
    }

    /// An in-flight request finished and its reply went out.
    pub fn finish(&mut self)
        requires
            old(self).wf(),
            old(self)@.in_flight >= 1,
        ensures
            final(self).wf(),
            final(self)@ == finished(old(self)@),
    {
        self.in_flight = self.in_flight - 1;
        if self.in_flight == 0 && self.phase == Phase::Draining {
            self.phase = Phase::Stopped;
        }
    }
}

/// A termination signal during in-flight uploads lets each of them finish
/// and answer normally before the process exits: the signal keeps every
/// in-flight request and stops accepting new ones; the process does not
/// stop before the last request has finished, and finishing is what stops
/// it.
pub proof fn lemma_graceful_drain(m: LifecycleModel)
    requires
        lifecycle_inv(m),
        m.phase is Running,
        m.in_flight >= 1,
    ensures
        !accepting(signaled(m)),
        signaled(m).in_flight == m.in_flight,
        !(signaled(m).phase is Stopped),
        finished(signaled(m)).in_flight == m.in_flight - 1,
        finished(signaled(m)).phase is Stopped <==> m.in_flight == 1,
        lifecycle_inv(finished(signaled(m))),
{
}

} // verus!
