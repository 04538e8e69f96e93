use vstd::prelude::*;

verus! {

/// What the host must do with its recurring timer after a reconfiguration.
#[derive(PartialEq, Eq, Structural, Clone, Copy, Debug)]
pub enum TimerAction {
    /// Leave the timers as they are.
    Keep,
    /// Install a recurring timer, then report its handle with `timer_started`.
    Start,
    /// Cancel the timer with this handle.
    Stop(i32),
    /// Cancel the timer with this handle, then install a fresh one and report
    /// its handle with `timer_started`.
    Restart(i32),
}

impl TimerAction {
    /// The handle this action cancels, if any.
    pub open spec fn cancelled(self) -> Option<i32> {
        match self {
            TimerAction::Stop(h) => Some(h),
            TimerAction::Restart(h) => Some(h),
            _ => None,
        }
    }

    /// Whether this action installs a new timer.
    pub open spec fn installs(self) -> bool {
        self is Start || self is Restart
    }
}

/// The abstract state of the animation timer.
pub struct SchedulerView {
    /// Whether the phase advances on its own.
    pub autorun: bool,
    /// The period in effect, as the bit pattern of its value.
    pub period_bits: u64,
    /// The handle of the live timer, once the host has reported it.
    pub timer: Option<i32>,
    /// The time of the last tick (or of the start), in nanoseconds.
    pub last_tick: Option<u64>,
}

impl SchedulerView {
    /// Every state the scheduler can be in: a timer and a timestamp exist
    /// only while autorun is on, and while it is on the timestamp is kept.
    pub open spec fn wf(self) -> bool {
        &&& (self.timer is Some ==> self.autorun)
        &&& (self.last_tick is Some <==> self.autorun)
    }

    /// No timer installation is awaiting its handle: a timer is live exactly
    /// when autorun is on.
    pub open spec fn settled(self) -> bool {
        self.wf() && (self.timer is Some <==> self.autorun)
    }
}

/// What a reconfiguration asks of the host's timers. The timer is replaced
/// whenever autorun is turned on, and whenever the period changes while it
/// is on; it is cancelled when autorun is turned off.
pub open spec fn action_for(s: SchedulerView, autorun: bool, period_bits: u64) -> TimerAction {
    if autorun {
        if s.autorun && s.period_bits == period_bits {
            TimerAction::Keep
        } else {
            match s.timer {
                Some(h) => TimerAction::Restart(h),
                None => TimerAction::Start,
            }
        }
    } else {
        match s.timer {
            Some(h) => TimerAction::Stop(h),
            None => TimerAction::Keep,
        }
    }
}

/// The state after a reconfiguration at time `now`.
pub open spec fn configured(s: SchedulerView, autorun: bool, period_bits: u64, now: u64) -> SchedulerView {
    let a = action_for(s, autorun, period_bits);
    SchedulerView {
        autorun,
        period_bits,
        timer: if a is Keep { s.timer } else { None },
        last_tick: if a.installs() { Some(now) } else if autorun { s.last_tick } else { None },
    }
}

/// The number of live timers once the host has carried out `a`, starting
/// from the live timer `before`.
pub open spec fn live_after(before: Option<i32>, a: TimerAction) -> nat {
    (if before is Some && a.cancelled() is None { 1nat } else { 0nat }) + (if a.installs() { 1nat } else { 0nat })
}

/// Time elapsed from `from` to `to`; a clock reading earlier than `from`
/// counts as no time at all.
pub open spec fn elapsed(from: u64, to: u64) -> u64 {
    if to >= from { (to - from) as u64 } else { 0 }
}

/// A reconfiguration of a settled scheduler never leaves two timers live: once
/// the host has carried out the action, exactly one timer is live if autorun
/// is on and none otherwise, and the only timer it cancels is the live one.
pub proof fn lemma_at_most_one_live_timer(s: SchedulerView, autorun: bool, period_bits: u64)
    requires
        s.settled(),
    ensures
        live_after(s.timer, action_for(s, autorun, period_bits)) == (if autorun { 1nat } else { 0nat }),
        live_after(s.timer, action_for(s, autorun, period_bits)) <= 1,
        action_for(s, autorun, period_bits).cancelled() is Some ==> action_for(s, autorun, period_bits).cancelled() == s.timer,
{
}

/// Toggling autorun on, off and on again, with the host reporting each new
/// timer, leaves one live timer after the first toggle, none after the
/// second and one after the third: never two at once.
pub proof fn lemma_toggle_autorun(s0: SchedulerView, period_bits: u64, t1: u64, h1: i32, t2: u64, t3: u64, h3: i32)
    requires
        s0.settled(),
        !s0.autorun,
    ensures
        ({
            let a1 = action_for(s0, true, period_bits);
            let s1 = SchedulerView { timer: Some(h1), ..configured(s0, true, period_bits, t1) };
            let a2 = action_for(s1, false, period_bits);
            let s2 = configured(s1, false, period_bits, t2);
            let a3 = action_for(s2, true, period_bits);
            &&& a1 == TimerAction::Start
            &&& live_after(s0.timer, a1) == 1
            &&& s1.settled()
            &&& a2 == TimerAction::Stop(h1)
            &&& live_after(s1.timer, a2) == 0
            &&& s2.settled()
            &&& a3 == TimerAction::Start
            &&& live_after(s2.timer, a3) == 1
            &&& (SchedulerView { timer: Some(h3), ..configured(s2, true, period_bits, t3) }).settled()
        }),
{
}

/// The sum of the intervals that ticks at the clock readings `ticks` report,
/// the first measured from `start`.
pub open spec fn total_elapsed(start: u64, ticks: Seq<u64>) -> int
    decreases ticks.len(),
{
    if ticks.len() == 0 {
        0
    } else {
        let prev = if ticks.len() == 1 { start } else { ticks[ticks.len() - 2] };
        total_elapsed(start, ticks.drop_last()) + elapsed(prev, ticks.last()) as int
    }
}

/// Clock readings that never go back.
pub open spec fn nondecreasing(start: u64, ticks: Seq<u64>) -> bool {
    &&& (ticks.len() > 0 ==> start <= ticks[0])
    &&& forall|i: int, j: int| 0 <= i <= j < ticks.len() ==> ticks[i] <= ticks[j]
}

/// With a clock that never goes back, the intervals that successive ticks
/// report add up to the whole time from the start to the last tick, however
/// irregularly the timer fires: no time is lost or counted twice.
pub proof fn lemma_ticks_add_up(start: u64, ticks: Seq<u64>)
    requires
        nondecreasing(start, ticks),
    ensures
        ticks.len() > 0 ==> total_elapsed(start, ticks) == ticks.last() - start,
    decreases ticks.len(),
{
    if ticks.len() == 1 {
        assert(total_elapsed(start, ticks.drop_last()) == 0);
    } else if ticks.len() > 1 {
        let rest = ticks.drop_last();
        assert(nondecreasing(start, rest));
        lemma_ticks_add_up(start, rest);
        assert(rest.last() == ticks[ticks.len() - 2]);
        assert(ticks[ticks.len() - 2] <= ticks.last());
    }
}

/// Drives the recurring timer that advances the animation phase.
pub struct Scheduler {
    autorun: bool,
    period_bits: u64,
    timer: Option<i32>,
    last_tick: Option<u64>,
}

impl View for Scheduler {
    type V = SchedulerView;

    closed spec fn view(&self) -> SchedulerView {
        SchedulerView {
            autorun: self.autorun,
            period_bits: self.period_bits,
            timer: self.timer,
            last_tick: self.last_tick,
        }
    }
}

impl Scheduler {
    #[verifier::type_invariant]
    spec fn well_formed(&self) -> bool {
        self@.wf()
    }

    /// A stopped scheduler with the given period.
    pub fn new(period_bits: u64) -> (r: Scheduler)
        ensures
            r@ == (SchedulerView { autorun: false, period_bits, timer: None, last_tick: None }),
            r@.settled(),
    {
        Scheduler { autorun: false, period_bits, timer: None, last_tick: None }
    }

    /// Whether autorun is on.
    pub fn autorun(&self) -> (r: bool)
        ensures
            r == self@.autorun,
    {
        self.autorun
    }

    /// The handle of the live timer.
    pub fn timer(&self) -> (r: Option<i32>)
        ensures
            r == self@.timer,
    {
        self.timer
    }

    /// The time of the last tick, while autorun is on.
    pub fn last_tick(&self) -> (r: Option<u64>)
        ensures
            r == self@.last_tick,
    {
        self.last_tick
    }

    /// Whether a timer is live exactly when autorun is on, so that the
    /// scheduler may be reconfigured.
    pub fn is_settled(&self) -> (r: bool)
        ensures
            r == self@.settled(),
    {
        proof {
            use_type_invariant(self);
        }
        self.timer.is_some() == self.autorun
    }

    /// Takes the current autorun flag and period at time `now`, and returns
    /// what the host must do with its timers. A timer that is replaced is
    /// always cancelled in the same action, before the new one is installed.
    pub fn configure(&mut self, autorun: bool, period_bits: u64, now: u64) -> (r: TimerAction)
        requires
            old(self)@.settled(),
        ensures
            r == action_for(old(self)@, autorun, period_bits),
            final(self)@ == configured(old(self)@, autorun, period_bits, now),
            final(self)@.wf(),
            r.cancelled() is Some ==> r.cancelled() == old(self)@.timer,
            live_after(old(self)@.timer, r) == (if autorun { 1nat } else { 0nat }),
    {
        let action = if autorun {
            if self.autorun && self.period_bits == period_bits {
                TimerAction::Keep
            } else {
                match self.timer {
                    Some(h) => TimerAction::Restart(h),
                    None => TimerAction::Start,
                }
            }
        } else {
            match self.timer {
                Some(h) => TimerAction::Stop(h),
                None => TimerAction::Keep,
            }
        };
        let installs = match action {
            TimerAction::Start | TimerAction::Restart(_) => true,
            _ => false,
        };
        let timer = if matches!(action, TimerAction::Keep) {
            self.timer
        } else {
            None
        };
        let last_tick = if installs {
            Some(now)
        } else if autorun {
            self.last_tick
        } else {
            None
        };
        *self = Scheduler { autorun, period_bits, timer, last_tick };
        action
    }

    /// Records the handle of the timer the host installed after `Start` or
    /// `Restart`.
    pub fn timer_started(&mut self, handle: i32)
        requires
            old(self)@.autorun,
            old(self)@.timer is None,
        ensures
            final(self)@ == (SchedulerView { timer: Some(handle), ..old(self)@ }),
            final(self)@.settled(),
    {
        proof {
            use_type_invariant(&*self);
        }
        self.timer = Some(handle);
    }

    /// A firing of the timer at time `now`. While autorun is on, returns the
    /// time elapsed since the previous tick (or the start) and records `now`;
    /// otherwise the firing is stale and nothing changes.
    pub fn tick(&mut self, now: u64) -> (dt: Option<u64>)
        ensures
            match old(self)@.last_tick {
                Some(t) => {
                    &&& dt == Some(elapsed(t, now))
                    &&& final(self)@ == (SchedulerView { last_tick: Some(now), ..old(self)@ })
                },
                None => dt is None && final(self)@ == old(self)@,
            },
            final(self)@.wf(),
    {
        proof {
            use_type_invariant(&*self);
        }
        match self.last_tick {
            Some(t) => {
                let dt = if now >= t { now - t } else { 0 };
                self.last_tick = Some(now);
                Some(dt)
            },
            None => None,
        }
    }
}

} // verus!
