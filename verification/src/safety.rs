//! Vehicle safety interlocks and field telemetry.
//!
//! - [`Interlock`] gates the actuator authority of an autonomy stack: commands
//!   pass only while it is armed, and disarming forces a safe stop.
//! - [`TelemetryRing`] is a fixed-capacity ring of field-test events that
//!   overwrites the oldest record once full.
use vstd::prelude::*;
use crate::autonomy::{AutonomyError, AutonomyStack, ControlCommand, SensorSample, VehicleState};

verus! {

/// State of the autonomy kill-switch / interlock.
#[derive(Debug, Clone, Copy, PartialEq, Eq, Structural)]
pub enum InterlockState {
    /// Actuator authority is granted (kill-switch open, supervisor armed).
    Armed,
    /// Actuator authority is denied; commands are suppressed (safe stop).
    Disarmed,
}

/// A safety interlock wrapping an [`AutonomyStack`].
///
/// While armed, commands produced by the inner stack are passed through
/// unchanged. While disarmed, every call to `next_command` returns `Ok(None)`
/// (safe stop) and `has_control` returns `false`, whatever the inner stack
/// reports.
pub struct Interlock<S: AutonomyStack> {
    stack: S,
    state: InterlockState,
}

impl<S: AutonomyStack> Interlock<S> {
    /// The wrapped stack.
    pub closed spec fn inner(&self) -> S {
        self.stack
    }

    /// The interlock's state.
    pub closed spec fn mode(&self) -> InterlockState {
        self.state
    }

    /// Wraps `stack`, starting disarmed (fail-safe default).
    pub fn new(stack: S) -> (r: Self)
        ensures
            r.inner() == stack,
            r.mode() == InterlockState::Disarmed,
    {
        Interlock { stack, state: InterlockState::Disarmed }
    }

    /// Arms the interlock, granting actuator authority.
    ///
    /// Only trusted supervisor code should call this (e.g. after the bench
    /// checks and a signed-image check pass).
    pub fn arm(&mut self)
        ensures
            final(self).mode() == InterlockState::Armed,
            final(self).inner() == old(self).inner(),
    {
        self.state = InterlockState::Armed;
    }

    /// Disarms the interlock, cutting actuator authority (safe stop).
    pub fn disarm(&mut self)
        ensures
            final(self).mode() == InterlockState::Disarmed,
            final(self).inner() == old(self).inner(),
    {
        self.state = InterlockState::Disarmed;
    }

    /// Returns the current interlock state.
    pub fn state(&self) -> (r: InterlockState)
        ensures
            r == self.mode(),
    {
        self.state
    }

    /// Returns `true` only if the interlock is armed AND the inner stack holds
    /// control.
    pub fn has_control(&self) -> (r: bool)
        ensures
            r == (self.mode() == InterlockState::Armed && self.inner().holds_control()),
    {
        matches!(self.state, InterlockState::Armed) && self.stack.has_control()
    }

    /// Ingests a sensor sample, forwarded to the inner stack unconditionally.
    pub fn ingest(&mut self, sample: SensorSample) -> (r: Result<(), AutonomyError>)
        ensures
            r == old(self).inner().ingest_result(sample),
            final(self).inner() == old(self).inner().after_ingest(sample),
            final(self).mode() == old(self).mode(),
    {
        self.stack.ingest(sample)
    }

    /// Produces the next command, but only if the interlock is armed.
    ///
    /// When disarmed this returns `Ok(None)`, a safe stop, and leaves the inner
    /// stack untouched.
    pub fn next_command(&mut self, state: VehicleState) -> (r: Result<
        Option<ControlCommand>,
        AutonomyError,
    >)
        requires
            old(self).mode() == InterlockState::Armed ==> old(self).inner().accepts_state(state),
        ensures
            old(self).mode() == InterlockState::Disarmed ==> r == Ok::<
                Option<ControlCommand>,
                AutonomyError,
            >(None) && final(self).inner() == old(self).inner(),
            old(self).mode() == InterlockState::Armed ==> r == old(self).inner().command(state)
                && final(self).inner() == old(self).inner().after_command(state),
            final(self).mode() == old(self).mode(),
    {
        if !matches!(self.state, InterlockState::Armed) {
            return Ok(None);
        }
        self.stack.next_command(state)
    }
}

impl<S: AutonomyStack> AutonomyStack for Interlock<S> {
    open spec fn holds_control(&self) -> bool {
        self.mode() == InterlockState::Armed && self.inner().holds_control()
    }

    open spec fn accepts_state(&self, state: VehicleState) -> bool {
        self.mode() == InterlockState::Armed ==> self.inner().accepts_state(state)
    }

    open spec fn ingest_result(&self, sample: SensorSample) -> Result<(), AutonomyError> {
        self.inner().ingest_result(sample)
    }

    closed spec fn after_ingest(&self, sample: SensorSample) -> Self {
        Interlock { stack: self.stack.after_ingest(sample), state: self.state }
    }

    open spec fn command(&self, state: VehicleState) -> Result<Option<ControlCommand>, AutonomyError> {
        if self.mode() == InterlockState::Armed {
            self.inner().command(state)
        } else {
            Ok(None)
        }
    }

    closed spec fn after_command(&self, state: VehicleState) -> Self {
        if self.state == InterlockState::Armed {
            Interlock { stack: self.stack.after_command(state), state: self.state }
        } else {
            *self
        }
    }

    fn ingest(&mut self, sample: SensorSample) -> (r: Result<(), AutonomyError>) {
        self.ingest(sample)
    }

    fn next_command(&mut self, state: VehicleState) -> (r: Result<
        Option<ControlCommand>,
        AutonomyError,
    >) {
        self.next_command(state)
    }

    fn has_control(&self) -> (r: bool) {
        self.has_control()
    }
}

/// The kill-switch cannot be defeated by the wrapped stack: whatever the stack
/// reports, a disarmed interlock holds no control and commands a safe stop
/// (`Ok(None)`), and an armed one passes the stack's command through
/// unchanged.
pub proof fn lemma_interlock_gates_authority<S: AutonomyStack>(i: Interlock<S>, state: VehicleState)
    ensures
        i.mode() == InterlockState::Disarmed ==> !i.holds_control() && i.command(state) == Ok::<
            Option<ControlCommand>,
            AutonomyError,
        >(None),
        i.mode() == InterlockState::Armed ==> i.holds_control() == i.inner().holds_control()
            && i.command(state) == i.inner().command(state),
{
}

/// A single telemetry record for field logging.
#[derive(Debug, Clone, Copy, PartialEq, Eq, Structural)]
pub struct TelemetryRecord {
    /// Monotonic timestamp (ms).
    pub timestamp: u32,
    /// Free-form event code (caller-defined).
    pub code: u16,
    /// Optional 32-bit payload (e.g. speed, slot, error code).
    pub value: u32,
}

/// The records a ring of capacity `cap` holds after `record` is pushed onto
/// `held`: appended, with the oldest dropped once the ring is full.
pub open spec fn ring_push(held: Seq<TelemetryRecord>, record: TelemetryRecord, cap: nat) -> Seq<
    TelemetryRecord,
> {
    if held.len() < cap {
        held.push(record)
    } else {
        held.drop_first().push(record)
    }
}

/// The records an empty ring of capacity `cap` holds after `records` were
/// pushed in order.
pub open spec fn ring_after(records: Seq<TelemetryRecord>, cap: nat) -> Seq<TelemetryRecord>
    decreases records.len(),
{
    if records.len() == 0 {
        Seq::empty()
    } else {
        ring_push(ring_after(records.drop_last(), cap), records.last(), cap)
    }
}

/// Position in the backing store of the `i`-th record counted from `start`.
pub open spec fn ring_slot(start: int, i: int, cap: int) -> int {
    if start + i < cap {
        start + i
    } else {
        start + i - cap
    }
}

/// A fixed-capacity telemetry ring buffer.
///
/// Records overwrite the oldest entry once full, so it is safe to leave running
/// indefinitely on resource-constrained ECUs and offload periodically.
pub struct TelemetryRing<const N: usize> {
    buf: Vec<TelemetryRecord>,
    oldest: usize,
    len: usize,
}

impl<const N: usize> View for TelemetryRing<N> {
    type V = Seq<TelemetryRecord>;

    /// The stored records, oldest first.
    closed spec fn view(&self) -> Seq<TelemetryRecord> {
        Seq::new(self.len as nat, |i: int| self.buf@[ring_slot(self.oldest as int, i, N as int)])
    }
}

impl<const N: usize> TelemetryRing<N> {
    /// The ring's internal invariant: the backing store has `N` slots and the
    /// stored records fit in it.
    pub closed spec fn wf(&self) -> bool {
        &&& self.buf@.len() == N
        &&& self.len <= N
        &&& self.oldest < N || N == 0
        &&& self.oldest == 0 || self.len == N
    }

    /// Creates an empty ring buffer.
    pub fn new() -> (r: Self)
        ensures
            r.wf(),
            r@ == Seq::<TelemetryRecord>::empty(),
    {
        let mut buf: Vec<TelemetryRecord> = Vec::new();
        let mut i: usize = 0;
        while i < N
            invariant
                i <= N,
                buf@.len() == i,
            decreases N - i,
        {
            buf.push(TelemetryRecord { timestamp: 0, code: 0, value: 0 });
            i = i + 1;
        }
        let r = TelemetryRing { buf, oldest: 0, len: 0 };
        assert(r@ =~= Seq::<TelemetryRecord>::empty());
        r
    }

    /// Records one event, overwriting the oldest if the buffer is full.
    pub fn push(&mut self, record: TelemetryRecord)
        requires
            old(self).wf(),
            N > 0,
        ensures
            final(self).wf(),
            final(self)@ == ring_push(old(self)@, record, N as nat),
    {
        let ghost old_view = self@;
        let ghost old_oldest = self.oldest as int;
        if self.len < N {
            // Not full yet: the records start at slot 0, so the next free slot
            // is `len`.
            let at = self.len;
            self.buf.set(at, record);
            self.len = at + 1;
            assert(self@ =~= old_view.push(record));
        } else {
            // Full: the oldest record's slot takes the new one.
            let at = self.oldest;
            self.buf.set(at, record);
            self.oldest = if at + 1 == N {
                0
            } else {
                at + 1
            };
            proof {
                let expected = old_view.drop_first().push(record);
                assert forall|i: int| 0 <= i < N implies #[trigger] self@[i] == expected[i] by {
                    assert(ring_slot(self.oldest as int, i, N as int) == ring_slot(
                        old_oldest,
                        i + 1,
                        N as int,
                    ) || i + 1 == N);
                }
                assert(self@ =~= expected);
            }
        }
    }

    /// Returns the number of stored records (at most `N`).
    pub fn len(&self) -> (r: usize)
        requires
            self.wf(),
        ensures
            r as nat == self@.len(),
            r <= N,
    {
        self.len
    }

    /// Returns `true` if no records are stored.
    pub fn is_empty(&self) -> (r: bool)
        ensures
            r == (self@.len() == 0),
    {
        self.len == 0
    }

    /// The stored records from oldest to newest.
    pub fn iter(&self) -> (r: Vec<TelemetryRecord>)
        requires
            self.wf(),
        ensures
            r@ == self@,
    {
        let start = self.oldest;
        let mut out: Vec<TelemetryRecord> = Vec::new();
        let mut i: usize = 0;
        while i < self.len
            invariant
                self.buf@.len() == N,
                self.len <= N,
                start == self.oldest,
                start < N || N == 0,
                i <= self.len,
                out@.len() == i,
                forall|k: int| 0 <= k < i ==> out@[k] == self@[k],
            decreases self.len - i,
        {
            let slot = if i < N - start {
                start + i
            } else {
                i - (N - start)
            };
            out.push(self.buf[slot]);
            i = i + 1;
        }
        assert(out@ =~= self@);
        out
    }
}

impl<const N: usize> Default for TelemetryRing<N> {
    fn default() -> (r: Self)
        ensures
            r.wf(),
            r@ == Seq::<TelemetryRecord>::empty(),
    {
        Self::new()
    }
}

/// A ring of capacity `cap` holds the last `min(k, cap)` of the `k` records
/// pushed into it, oldest first.
pub proof fn lemma_ring_keeps_latest(records: Seq<TelemetryRecord>, cap: nat)
    requires
        cap > 0,
    ensures
        ring_after(records, cap) == records.skip(
            records.len() - (if records.len() < cap {
                records.len()
            } else {
                cap
            }),
        ),
    decreases records.len(),
{
    if records.len() > 0 {
        let prefix = records.drop_last();
        lemma_ring_keeps_latest(prefix, cap);
        let held = ring_after(prefix, cap);
        if prefix.len() < cap {
            assert(held.push(records.last()) =~= records.skip(0));
        } else {
            assert(held.drop_first().push(records.last()) =~= records.skip(records.len() - cap));
        }
    }
}

} // verus!
