//! Admission control: a counting semaphore with FIFO backpressure.
//!
//! Every inbound request takes one of a fixed number of permits before its
//! handler runs and gives it back on completion. A request arriving with
//! all permits held waits in arrival order; it is never rejected. A release
//! with waiters hands the permit straight to the longest-waiting request,
//! so the number mid-flight never passes the limit.

use vstd::prelude::*;

verus! {

/// The mathematical shadow of the controller: the permit limit, how many
/// requests hold a permit, and the queue of waiting request tokens in
/// arrival order.
pub ghost struct AdmissionModel {
    pub limit: int,
    pub in_flight: int,
    pub waiting: Seq<u64>,
}

/// What always holds of the controller: the limit is never exceeded, and
/// nobody waits while a permit is free.
pub open spec fn admission_inv(m: AdmissionModel) -> bool {
    0 <= m.in_flight <= m.limit && (m.waiting.len() > 0 ==> m.in_flight == m.limit)
}

/// The controller after a request arrives: admitted at once when a permit
/// is free, appended to the wait queue otherwise.
pub open spec fn arrived(m: AdmissionModel, req: u64) -> AdmissionModel {
    if m.in_flight < m.limit {
        AdmissionModel { in_flight: m.in_flight + 1, ..m }
    } else {
        AdmissionModel { waiting: m.waiting.push(req), ..m }
    }
}

/// Whether an arriving request is admitted at once.
pub open spec fn arrival_admits(m: AdmissionModel) -> bool {
    m.in_flight < m.limit
}

/// The controller after a mid-flight request completes and releases its
/// permit, with the request the permit passes to, if any: the head of the
/// wait queue takes it without the count ever dropping.
pub open spec fn released(m: AdmissionModel) -> (AdmissionModel, Option<u64>) {
    if m.waiting.len() > 0 {
        (AdmissionModel { waiting: m.waiting.skip(1), ..m }, Some(m.waiting[0]))
    } else {
        (AdmissionModel { in_flight: m.in_flight - 1, ..m }, None)
    }
}

/// The admission controller: a counting semaphore over opaque request
/// tokens, with a FIFO wait queue.
pub struct Admission {
    pub limit: usize,
    pub in_flight: usize,
    pub waiting: Vec<u64>,
}

impl View for Admission {
    type V = AdmissionModel;

    open spec fn view(&self) -> AdmissionModel {
        AdmissionModel {
            limit: self.limit as int,
            in_flight: self.in_flight as int,
            waiting: self.waiting@,
        }
    }
}

impl Admission {
    pub open spec fn wf(&self) -> bool {
        admission_inv(self@)
    }

    /// A fresh controller with `limit` permits, none held.
    pub fn new(limit: usize) -> (r: Admission)
        ensures
            r.wf(),
            r@.limit == limit as int,
            r@.in_flight == 0,
            r@.waiting =~= Seq::<u64>::empty(),
    {
        Admission { limit, in_flight: 0, waiting: Vec::new() }
    }

    /// A request arrives: it is admitted at once when a permit is free and
    /// queued behind earlier waiters otherwise — never rejected.
    pub fn arrive(&mut self, req: u64) -> (admitted: bool)
        requires
            old(self).wf(),
            old(self)@.waiting.len() < usize::MAX,
        ensures
            final(self).wf(),
            admitted == arrival_admits(old(self)@),
            final(self)@ == arrived(old(self)@, req),
    {
        if self.in_flight < self.limit {
            self.in_flight = self.in_flight + 1;
            true
        } else {
            self.waiting.push(req);
            false
        }
    }

    /// A mid-flight request completes: its permit passes to the head of the
    /// wait queue, or is freed when nobody waits.
    pub fn release(&mut self) -> (next: Option<u64>)
        requires
            old(self).wf(),
            old(self)@.in_flight >= 1,
        ensures
            final(self).wf(),
            (final(self)@, next) == released(old(self)@),
    {
        if self.waiting.len() > 0 {
            let head = self.waiting.remove(0);
            proof {
                assert(self.waiting@ =~= old(self).waiting@.skip(1));
            }
            Some(head)
        } else {
            self.in_flight = self.in_flight - 1;
            None
        }
    }
}

/// With the limit set to `n`, at most `n` requests are ever mid-flight:
/// the bound is an invariant of every arrival and every release.
pub proof fn lemma_admission_cap(m: AdmissionModel, req: u64)
    requires
        admission_inv(m),
    ensures
        arrived(m, req).in_flight <= m.limit,
        admission_inv(arrived(m, req)),
        m.in_flight >= 1 ==> admission_inv(released(m).0),
{
}

/// A request arriving at a full controller is queued, not rejected, and
/// once a slot frees it is admitted: with `n` mid-flight and this request
/// the only waiter, the next completion hands it the permit.
pub proof fn lemma_backpressure_completes(m: AdmissionModel, req: u64)
    requires
        admission_inv(m),
        m.in_flight == m.limit,
        m.waiting.len() == 0,
    ensures
        !arrival_admits(m),
        arrived(m, req).waiting == m.waiting.push(req),
        released(arrived(m, req)).1 == Some(req),
        released(arrived(m, req)).0.in_flight == m.limit,
{
    assert(released(arrived(m, req)).0.waiting =~= Seq::<u64>::empty());
}

/// Releases serve waiters in arrival order: whoever has waited longest is
/// admitted first.
pub proof fn lemma_fifo_order(m: AdmissionModel)
    requires
        admission_inv(m),
        m.waiting.len() > 0,
    ensures
        released(m).1 == Some(m.waiting[0]),
        released(m).0.waiting == m.waiting.skip(1),
{
}

} // verus!
