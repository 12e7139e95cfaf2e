//! A gate that event handlers pass through, and that can be shut.
//!
//! A handler enters the event gate before it handles an event and leaves it afterwards. Suspending
//! it keeps handlers from entering, and lets the one who suspends wait until all who are inside
//! have left. Stopping it turns every handler away for good.
//!
//! [`EventGate`] is the state of the event gate and what each operation does to it. It is shared
//! between threads: whoever drives it keeps it under a lock, waits on a condition where an
//! operation answers `Wait` and tries again when woken, and wakes all who wait where an operation
//! answers [`Wake::Everybody`].

use vstd::prelude::*;

verus! {

/// What [`EventGate::enter`] answers.
#[derive(Clone, Copy, Debug, PartialEq, Eq, Structural)]
pub enum Admission {
    /// The event gate is suspended: wait until it changes, then try again.
    Wait,
    /// The event gate has been stopped: there is no way in, now or later.
    Stopped,
    /// The caller is inside, until it calls [`EventGate::leave`].
    Permit,
}

/// What [`EventGate::suspend`] and [`EventGate::drained`] answer.
#[derive(Clone, Copy, Debug, PartialEq, Eq, Structural)]
pub enum Drain {
    /// Someone is still inside: wait until the event gate changes, then ask [`EventGate::drained`].
    Wait,
    /// Nobody is inside.
    Empty,
}

/// Who has to be woken after an operation.
#[derive(Clone, Copy, Debug, PartialEq, Eq, Structural)]
pub enum Wake {
    /// The operation changes nothing that anyone waits for.
    Nobody,
    /// All who wait at the event gate.
    Everybody,
}

/// The state of a gate as a mathematical value.
pub struct GateState {
    /// Handlers that have not entered yet are held back.
    pub suspended: bool,
    /// Handlers that have not entered yet are turned away.
    pub stopped: bool,
    /// How many handlers are inside.
    pub in_flight: nat,
}

/// A gate that event handlers pass through.
pub struct EventGate {
    suspended: bool,
    stopped: bool,
    in_flight: usize,
}

impl View for EventGate {
    type V = GateState;

    closed spec fn view(&self) -> GateState {
        GateState {
            suspended: self.suspended,
            stopped: self.stopped,
            in_flight: self.in_flight as nat,
        }
    }
}

impl Default for EventGate {
    /// A gate that is open, with nobody inside.
    fn default() -> (gate: EventGate)
        ensures
            gate@ == gate_open(),
    {
        EventGate { suspended: false, stopped: false, in_flight: 0 }
    }
}

/// A gate that is open, with nobody inside.
pub open spec fn gate_open() -> GateState {
    GateState { suspended: false, stopped: false, in_flight: 0 }
}

impl GateState {
    /// What an attempt to enter is answered.
    pub open spec fn admission(self) -> Admission {
        if self.stopped {
            Admission::Stopped
        } else if self.suspended {
            Admission::Wait
        } else {
            Admission::Permit
        }
    }

    /// What someone who waits for the event gate to empty is answered.
    pub open spec fn drain(self) -> Drain {
        if self.in_flight == 0 {
            Drain::Empty
        } else {
            Drain::Wait
        }
    }
}

/// One operation on a gate.
pub enum GateOp {
    Suspend,
    Resume,
    Stop,
    Enter,
    Leave,
}

impl GateOp {
    /// Who has to be woken after the operation.
    pub open spec fn wake(self) -> Wake {
        match self {
            GateOp::Suspend | GateOp::Enter => Wake::Nobody,
            GateOp::Resume | GateOp::Stop | GateOp::Leave => Wake::Everybody,
        }
    }
}

impl GateState {
    /// The state after one operation. A `Leave` is only made by someone who is inside.
    pub open spec fn after(self, op: GateOp) -> GateState {
        match op {
            GateOp::Suspend => GateState { suspended: true, ..self },
            GateOp::Resume => GateState { suspended: false, ..self },
            GateOp::Stop => GateState { stopped: true, ..self },
            GateOp::Enter => if self.admission() == Admission::Permit {
                GateState { in_flight: self.in_flight + 1, ..self }
            } else {
                self
            },
            GateOp::Leave => if self.in_flight > 0 {
                GateState { in_flight: (self.in_flight - 1) as nat, ..self }
            } else {
                self
            },
        }
    }

    /// The state after a sequence of operations, by whatever threads.
    pub open spec fn after_all(self, ops: Seq<GateOp>) -> GateState
        decreases ops.len(),
    {
        if ops.len() == 0 {
            self
        } else {
            self.after_all(ops.drop_last()).after(ops.last())
        }
    }
}

impl EventGate {
    /// How many handlers are inside.
    pub fn in_flight(&self) -> (count: usize)
        ensures
            count == self@.in_flight,
    {
        self.in_flight
    }

    /// Holds back every handler that has not entered yet. On `Wait` the caller has to wait until
    /// [`EventGate::drained`] answers `Empty`; only then is the suspension complete.
    pub fn suspend(&mut self) -> (drain: Drain)
        ensures
            final(self)@ == old(self)@.after(GateOp::Suspend),
            drain == old(self)@.drain(),
    {
        self.suspended = true;
        self.drained()
    }

    /// Whether everybody has left, for someone who waits after [`EventGate::suspend`].
    pub fn drained(&self) -> (drain: Drain)
        ensures
            drain == self@.drain(),
    {
        if self.in_flight != 0 {
            Drain::Wait
        } else {
            Drain::Empty
        }
    }

    /// Lets handlers enter again, unless the event gate has been stopped.
    pub fn resume(&mut self) -> (wake: Wake)
        ensures
            final(self)@ == old(self)@.after(GateOp::Resume),
            wake == GateOp::Resume.wake(),
    {
        self.suspended = false;
        Wake::Everybody
    }

    /// Turns handlers away from now on. Those inside are not affected.
    pub fn stop(&mut self) -> (wake: Wake)
        ensures
            final(self)@ == old(self)@.after(GateOp::Stop),
            wake == GateOp::Stop.wake(),
    {
        self.stopped = true;
        Wake::Everybody
    }

    /// Asks to enter. Only on `Permit` is the caller inside; otherwise nothing has changed.
    pub fn enter(&mut self) -> (admission: Admission)
        requires
            old(self)@.admission() == Admission::Permit ==> old(self)@.in_flight < usize::MAX,
        ensures
            final(self)@ == old(self)@.after(GateOp::Enter),
            admission == old(self)@.admission(),
    {
        let admission = self.admission();
        if admission == Admission::Permit {
            self.in_flight = self.in_flight + 1;
        }
        admission
    }

    /// What [`EventGate::enter`] would answer now.
    pub fn admission(&self) -> (admission: Admission)
        ensures
            admission == self@.admission(),
    {
        if self.suspended && !self.stopped {
            Admission::Wait
        } else if self.stopped {
            Admission::Stopped
        } else {
            Admission::Permit
        }
    }

    /// Gives back a permit.
    pub fn leave(&mut self) -> (wake: Wake)
        requires
            old(self)@.in_flight > 0,
        ensures
            final(self)@ == old(self)@.after(GateOp::Leave),
            wake == GateOp::Leave.wake(),
    {
        self.in_flight = self.in_flight - 1;
        Wake::Everybody
    }
}

/// A gate that has been stopped stays stopped and never lets anyone in again, whatever is done to
/// it: resuming does not open it.
pub proof fn stopped_for_good(gate: GateState, ops: Seq<GateOp>)
    requires
        gate.stopped,
    ensures
        gate.after_all(ops).stopped,
        gate.after_all(ops).admission() == Admission::Stopped,
        gate.after_all(ops).in_flight <= gate.in_flight,
    decreases ops.len(),
{
    if ops.len() > 0 {
        stopped_for_good(gate, ops.drop_last());
    }
}

/// While a gate is suspended nobody gets in: without a resume, the number of handlers inside only
/// falls, whatever else is done. So once it has been suspended and found empty, it stays empty
/// until it is resumed.
pub proof fn suspended_until_resumed(gate: GateState, ops: Seq<GateOp>)
    requires
        gate.suspended,
        forall|i: int| 0 <= i < ops.len() ==> !(#[trigger] ops[i] is Resume),
    ensures
        gate.after_all(ops).suspended,
        gate.after_all(ops).admission() != Admission::Permit,
        gate.after_all(ops).in_flight <= gate.in_flight,
        gate.drain() == Drain::Empty ==> gate.after_all(ops).drain() == Drain::Empty,
    decreases ops.len(),
{
    if ops.len() > 0 {
        let before = ops.drop_last();
        assert forall|i: int| 0 <= i < before.len() implies !(#[trigger] before[i] is Resume) by {
            assert(before[i] == ops[i]);
        }
        suspended_until_resumed(gate, before);
        assert(!(ops[ops.len() - 1] is Resume));
    }
}

/// Nobody is left asleep: an operation after which someone who was told to wait would be told
/// otherwise wakes everybody.
pub proof fn no_lost_wakeup(gate: GateState, op: GateOp)
    ensures
        gate.admission() == Admission::Wait && gate.after(op).admission() != Admission::Wait
            ==> op.wake() == Wake::Everybody,
        gate.drain() == Drain::Wait && gate.after(op).drain() != Drain::Wait ==> op.wake()
            == Wake::Everybody,
{
}

/// Resuming undoes suspending: if nothing happened in between, the event gate is as open as it was,
/// and nobody inside has been affected.
pub proof fn resume_undoes_suspend(gate: GateState)
    requires
        !gate.suspended,
    ensures
        gate.after(GateOp::Suspend).after(GateOp::Resume) == gate,
{
}

/// Leaving undoes entering.
pub proof fn leave_undoes_enter(gate: GateState)
    requires
        gate.admission() == Admission::Permit,
    ensures
        gate.after(GateOp::Enter).after(GateOp::Leave) == gate,
{
}

/// Suspending holds back whoever has not entered yet, whatever the event gate was like and whoever
/// is inside: from then on, until it is resumed, nobody gets a permit, whatever else happens. It
/// does nothing to those inside, nor to whether the event gate is stopped.
pub proof fn suspend_holds_everybody_back(gate: GateState, ops: Seq<GateOp>)
    requires
        forall|i: int| 0 <= i < ops.len() ==> !(#[trigger] ops[i] is Resume),
    ensures
        gate.after(GateOp::Suspend).suspended,
        gate.after(GateOp::Suspend).in_flight == gate.in_flight,
        gate.after(GateOp::Suspend).stopped == gate.stopped,
        gate.after(GateOp::Suspend).after_all(ops).admission() != Admission::Permit,
        gate.after(GateOp::Suspend).after_all(ops).in_flight <= gate.in_flight,
{
    suspended_until_resumed(gate.after(GateOp::Suspend), ops);
}

/// Resuming lets everybody in again unless the event gate is stopped; stopping turns everybody away
/// whether or not it is suspended. Neither does anything to those inside.
pub proof fn resume_and_stop_decide_on_admission(gate: GateState)
    ensures
        gate.after(GateOp::Resume).admission() == if gate.stopped {
            Admission::Stopped
        } else {
            Admission::Permit
        },
        gate.after(GateOp::Stop).admission() == Admission::Stopped,
        !gate.after(GateOp::Resume).suspended && gate.after(GateOp::Resume).stopped == gate.stopped,
        gate.after(GateOp::Stop).stopped && gate.after(GateOp::Stop).suspended == gate.suspended,
        gate.after(GateOp::Resume).in_flight == gate.in_flight,
        gate.after(GateOp::Stop).in_flight == gate.in_flight,
{
}

/// A permit is given exactly if the event gate is neither suspended nor stopped; one who is turned
/// away for good is turned away because it is stopped, and one who has to wait would be let in but
/// for the suspension.
pub proof fn admission_follows_the_state(gate: GateState)
    ensures
        gate.admission() == Admission::Permit <==> !gate.suspended && !gate.stopped,
        gate.admission() == Admission::Stopped <==> gate.stopped,
        gate.admission() == Admission::Wait <==> gate.suspended && !gate.stopped,
{
}

/// Everybody who is let in is counted, and nobody else: an attempt to enter adds one to those
/// inside if it is answered with a permit and changes nothing if it is not, and leaving takes one
/// away. The event gate is found empty exactly if nobody is inside. Neither opens or shuts it.
pub proof fn those_inside_are_counted(gate: GateState)
    ensures
        gate.after(GateOp::Enter).in_flight == gate.in_flight + if !gate.suspended && !gate.stopped {
            1int
        } else {
            0
        },
        gate.in_flight > 0 ==> gate.after(GateOp::Leave).in_flight == gate.in_flight - 1,
        gate.after(GateOp::Enter).suspended == gate.suspended,
        gate.after(GateOp::Enter).stopped == gate.stopped,
        gate.after(GateOp::Leave).suspended == gate.suspended,
        gate.after(GateOp::Leave).stopped == gate.stopped,
        gate.drain() == Drain::Empty <==> gate.in_flight == 0,
        gate_open().admission() == Admission::Permit && gate_open().in_flight == 0,
{
}

/// Whoever resumes, stops or leaves wakes everybody; suspending and entering wake nobody.
pub proof fn only_what_opens_wakes(op: GateOp)
    ensures
        op.wake() == Wake::Everybody <==> op is Resume || op is Stop || op is Leave,
        op.wake() == Wake::Nobody <==> op is Suspend || op is Enter,
{
}

} // verus!
