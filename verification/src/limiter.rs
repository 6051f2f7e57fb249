//! Connection-admission limiter: a counting limiter with a fixed capacity and a
//! level-triggered closed flag. Every live connection holds one permit; the
//! limiter going closed is the shutdown trigger for "stop accepting new work".

use vstd::prelude::*;

verus! {

/// A token standing for one occupied slot of the admission limiter.
///
/// A permit is handed out only by [`AdmissionLimiter::try_acquire`] and is
/// owned by exactly one live connection at a time; giving it back through
/// [`AdmissionLimiter::release`] on destruction of the owning entity is the
/// only way to free the slot.
pub struct Permit {
    _priv: bool,
}

/// Mathematical state of an [`AdmissionLimiter`].
pub struct LimiterView {
    /// Number of slots the limiter was created with.
    pub capacity: nat,
    /// Number of permits currently issued and not yet released.
    pub issued: nat,
    /// Whether the limiter has been closed; closing is level-triggered and
    /// permanent.
    pub closed: bool,
}

/// Holds when an acquisition attempt on a limiter in state `v` succeeds:
/// the limiter is open and a slot is free.
pub open spec fn acquire_allowed(v: LimiterView) -> bool {
    !v.closed && v.issued < v.capacity
}

/// The state of a limiter after a successful acquisition.
pub open spec fn spec_acquire(v: LimiterView) -> LimiterView
    recommends
        acquire_allowed(v),
{
    LimiterView { issued: (v.issued + 1) as nat, ..v }
}

/// The state of a limiter after one permit is released.
pub open spec fn spec_release(v: LimiterView) -> LimiterView
    recommends
        v.issued >= 1,
{
    LimiterView { issued: (v.issued - 1) as nat, ..v }
}

/// The state of a limiter after it is closed.
pub open spec fn spec_close(v: LimiterView) -> LimiterView {
    LimiterView { closed: true, ..v }
}

/// The connection-admission limiter.
pub struct AdmissionLimiter {
    capacity: usize,
    issued: usize,
    closed: bool,
}

impl View for AdmissionLimiter {
    type V = LimiterView;

    closed spec fn view(&self) -> LimiterView {
        LimiterView {
            capacity: self.capacity as nat,
            issued: self.issued as nat,
            closed: self.closed,
        }
    }
}

impl AdmissionLimiter {
    /// The limiter never has more permits out than its capacity.
    pub open spec fn wf(&self) -> bool {
        self@.issued <= self@.capacity
    }

    /// Creates an open limiter with `capacity` free slots and no permit issued.
    pub fn new(capacity: usize) -> (r: AdmissionLimiter)
        ensures
            r@ == (LimiterView { capacity: capacity as nat, issued: 0, closed: false }),
            r.wf(),
    {
        AdmissionLimiter { capacity, issued: 0, closed: false }
    }

    /// Number of slots the limiter was created with.
    pub fn capacity(&self) -> (r: usize)
        ensures
            r == self@.capacity,
    {
        self.capacity
    }

    /// Number of permits currently issued and not yet released.
    pub fn issued(&self) -> (r: usize)
        ensures
            r == self@.issued,
    {
        self.issued
    }

    /// Whether the limiter has been closed.
    pub fn is_closed(&self) -> (r: bool)
        ensures
            r == self@.closed,
    {
        self.closed
    }

    /// Attempts to take one slot. Succeeds exactly when the limiter is open and
    /// a slot is free; a failed attempt changes nothing. Issued permits are
    /// never revoked, so a success raises `issued` by one.
    pub fn try_acquire(&mut self) -> (r: Option<Permit>)
        requires
            old(self).wf(),
        ensures
            final(self).wf(),
            r is Some <==> acquire_allowed(old(self)@),
            r is Some ==> final(self)@ == spec_acquire(old(self)@),
            r is None ==> final(self)@ == old(self)@,
    {
        if !self.closed && self.issued < self.capacity {
            self.issued = self.issued + 1;
            Some(Permit { _priv: true })
        } else {
            None
        }
    }

    /// Gives one permit back, freeing its slot. Closing the limiter does not
    /// revoke permits, so release works on a closed limiter too.
    pub fn release(&mut self, permit: Permit)
        requires
            old(self).wf(),
            old(self)@.issued >= 1,
        ensures
            final(self).wf(),
            final(self)@ == spec_release(old(self)@),
    {
        let Permit { _priv } = permit;
        self.issued = self.issued - 1;
    }

    /// Closes the limiter: every later acquisition attempt fails. Level
    /// triggered; there is no way to reopen.
    pub fn close(&mut self)
        requires
            old(self).wf(),
        ensures
            final(self).wf(),
            final(self)@ == spec_close(old(self)@),
    {
        self.closed = true;
    }
}

/// Law: permits are never issued beyond capacity — once `capacity` permits
/// are out and none has come back, a further acquisition attempt fails.
pub proof fn lemma_admission_ceiling(v: LimiterView)
    requires
        v.issued >= v.capacity,
    ensures
        !acquire_allowed(v),
{
}

/// Law: releasing one permit of a full, still-open limiter frees exactly one
/// slot — the attempt that failed against the full limiter succeeds against
/// the released one, and only once: after that single admission the limiter
/// is full again.
pub proof fn lemma_release_admits_one(v: LimiterView)
    requires
        !v.closed,
        v.capacity > 0,
        v.issued == v.capacity,
    ensures
        !acquire_allowed(v),
        acquire_allowed(spec_release(v)),
        !acquire_allowed(spec_acquire(spec_release(v))),
{
}

/// Law: a closed limiter admits nobody, whatever its occupancy.
pub proof fn lemma_closed_rejects(v: LimiterView)
    requires
        v.closed,
    ensures
        !acquire_allowed(v),
{
}

} // verus!
