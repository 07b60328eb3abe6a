use vstd::prelude::*;
use crate::config::AmmVariant;
use crate::config::PoolIdentity;
use crate::normalize::PriceError;
use crate::pricing::PoolState;
use crate::pricing::PricePair;
use crate::pricing::price_pair;
use crate::pricing::price_pair_spec;
use crate::token::TokenRef;

verus! {

/// Why a reading of the pool's state could not be had.
#[derive(Clone, Copy, Debug, PartialEq, Eq, Structural)]
pub enum StateReadError {
    /// The call did not reach the node or the answer did not come back.
    Transport,
    /// The answer could not be read as a state of the pool's model.
    MalformedResponse,
    /// The pool's contract refused the call.
    ContractRevert,
}

/// Why a cycle ended without a price.
#[derive(Clone, Copy, Debug, PartialEq, Eq, Structural)]
pub enum CycleError {
    Read(StateReadError),
    Price(PriceError),
}

/// Where the monitor stands.
#[derive(Clone, Copy, Debug, PartialEq, Eq, Structural)]
pub enum Phase {
    /// Nothing has happened yet.
    Idle,
    /// A reading of the pool's state has been asked for.
    Recomputing,
    /// Waiting for the next trade.
    Subscribed,
    /// The stream of trades has ended, or the connection is gone.
    Terminated,
}

/// Why the monitor stopped.
#[derive(Clone, Copy, Debug, PartialEq, Eq, Structural)]
pub enum StopReason {
    /// The remote end closed the subscription.
    StreamClosed,
    /// The transport reported the connection as dead.
    ConnectionLost,
}

/// What the outside world tells the monitor.
#[derive(Clone, Copy, Debug, PartialEq, Eq, Structural)]
pub enum Event {
    /// The monitor is being started.
    Started,
    /// A trade was reported. What the report holds is of no interest.
    Notified,
    /// The reading that was asked for.
    StateRead(PoolState),
    /// The reading that was asked for could not be had.
    ReadFailed(StateReadError),
    /// The stream of trades has ended.
    StreamClosed,
    /// The connection is gone.
    ConnectionLost,
}

/// What the monitor asks of the outside world.
#[derive(Clone, Copy, Debug, PartialEq, Eq, Structural)]
pub enum Action {
    /// Read the pool's state and hand it back.
    ReadState,
    /// Report this pair of prices, then wait for the next trade.
    Report(PricePair),
    /// Report that the price is undefined, then wait for the next trade.
    ReportUndefined,
    /// Log that this cycle gave no price, then wait for the next trade.
    SkipCycle(CycleError),
    /// Leave the loop.
    Stop(StopReason),
    /// Nothing to do: the event has no meaning where the monitor stands.
    Ignore,
}

/// The decisions of the loop that reports a pool's price once at the start and
/// again after every trade.
#[derive(Clone, Copy, Debug, PartialEq, Eq, Structural)]
pub struct Monitor {
    pub phase: Phase,
    pub variant: AmmVariant,
    pub token_a: TokenRef,
    pub token_b: TokenRef,
}

/// Whether a reading has the shape of the pricing model.
pub open spec fn shape_matches(variant: AmmVariant, state: PoolState) -> bool {
    match state {
        PoolState::Reserves(_) => variant == AmmVariant::V2,
        PoolState::SqrtPrice(_) => variant == AmmVariant::V3,
    }
}

/// How a cycle that got its reading ends: with a pair of prices, with the
/// undefined price of a degenerate pool, or skipped.
pub open spec fn cycle_outcome(
    variant: AmmVariant,
    state: PoolState,
    a: TokenRef,
    b: TokenRef,
) -> Action {
    if !shape_matches(variant, state) {
        Action::SkipCycle(CycleError::Read(StateReadError::MalformedResponse))
    } else {
        match price_pair_spec(state, a, b) {
            Ok(p) => Action::Report(p),
            Err(PriceError::DegeneratePrice) => Action::ReportUndefined,
            Err(e) => Action::SkipCycle(CycleError::Price(e)),
        }
    }
}

impl Monitor {
    /// The phase that an event leads to, and what is asked of the outside
    /// world.
    ///
    /// Starting the monitor and every reported trade begin one cycle; a cycle
    /// ends when its reading arrives or fails, and either way the monitor goes
    /// back to waiting. The end of the stream and the loss of the connection
    /// stop the monitor, after which nothing moves it.
    pub open spec fn transition(self, event: Event) -> (Phase, Action) {
        match (self.phase, event) {
            (Phase::Terminated, _) => (Phase::Terminated, Action::Ignore),
            (_, Event::ConnectionLost) => (
                Phase::Terminated,
                Action::Stop(StopReason::ConnectionLost),
            ),
            (_, Event::StreamClosed) => (Phase::Terminated, Action::Stop(StopReason::StreamClosed)),
            (Phase::Idle, Event::Started) => (Phase::Recomputing, Action::ReadState),
            (Phase::Subscribed, Event::Notified) => (Phase::Recomputing, Action::ReadState),
            (Phase::Recomputing, Event::StateRead(state)) => (
                Phase::Subscribed,
                cycle_outcome(self.variant, state, self.token_a, self.token_b),
            ),
            (Phase::Recomputing, Event::ReadFailed(e)) => (
                Phase::Subscribed,
                Action::SkipCycle(CycleError::Read(e)),
            ),
            (phase, _) => (phase, Action::Ignore),
        }
    }

    /// The monitor after an event.
    pub open spec fn after(self, event: Event) -> Monitor {
        Monitor { phase: self.transition(event).0, ..self }
    }

    /// The monitor after a sequence of events.
    pub open spec fn after_all(self, events: Seq<Event>) -> Monitor
        decreases events.len(),
    {
        if events.len() == 0 {
            self
        } else {
            self.after_all(events.drop_last()).after(events.last())
        }
    }

    /// What the monitor asks for, event by event, over a sequence of events.
    pub open spec fn actions_over(self, events: Seq<Event>) -> Seq<Action>
        decreases events.len(),
    {
        if events.len() == 0 {
            Seq::empty()
        } else {
            self.actions_over(events.drop_last()).push(
                self.after_all(events.drop_last()).transition(events.last()).1,
            )
        }
    }

    /// A monitor that has not started yet.
    pub fn new(variant: AmmVariant, token_a: TokenRef, token_b: TokenRef) -> (r: Monitor)
        ensures
            r == (Monitor { phase: Phase::Idle, variant, token_a, token_b }),
    {
        Monitor { phase: Phase::Idle, variant, token_a, token_b }
    }

    /// A monitor for the pool of the given identity, not started yet.
    pub fn for_pool(identity: &PoolIdentity, token_a: TokenRef, token_b: TokenRef) -> (r: Monitor)
        ensures
            r == (Monitor { phase: Phase::Idle, variant: identity.variant, token_a, token_b }),
    {
        Monitor { phase: Phase::Idle, variant: identity.variant, token_a, token_b }
    }

    /// Whether the monitor has stopped for good.
    pub fn is_terminated(&self) -> (r: bool)
        ensures
            r == (self.phase == Phase::Terminated),
    {
        match self.phase {
            Phase::Terminated => true,
            _ => false,
        }
    }

    /// Ends a cycle whose reading has arrived: prices the reading where it has
    /// the shape of the monitor's model.
    pub fn conclude(&self, state: &PoolState) -> (r: Action)
        ensures
            r == cycle_outcome(self.variant, *state, self.token_a, self.token_b),
            r matches Action::Report(p) ==> p.wf(),
            !(r is ReadState) && !(r is Stop) && !(r is Ignore),
    {
        let fits = match (state, self.variant) {
            (PoolState::Reserves(_), AmmVariant::V2) => true,
            (PoolState::SqrtPrice(_), AmmVariant::V3) => true,
            _ => false,
        };
        if !fits {
            return Action::SkipCycle(CycleError::Read(StateReadError::MalformedResponse));
        }
        match price_pair(state, &self.token_a, &self.token_b) {
            Ok(p) => Action::Report(p),
            Err(PriceError::DegeneratePrice) => Action::ReportUndefined,
            Err(e) => Action::SkipCycle(CycleError::Price(e)),
        }
    }

    /// Takes one event, moves to the phase it leads to and says what to do.
    pub fn step(&mut self, event: Event) -> (r: Action)
        ensures
            *final(self) == old(self).after(event),
            r == old(self).transition(event).1,
            r matches Action::Report(p) ==> p.wf(),
    {
        let (phase, action) = match (self.phase, event) {
            (Phase::Terminated, _) => (Phase::Terminated, Action::Ignore),
            (_, Event::ConnectionLost) => (
                Phase::Terminated,
                Action::Stop(StopReason::ConnectionLost),
            ),
            (_, Event::StreamClosed) => (Phase::Terminated, Action::Stop(StopReason::StreamClosed)),
            (Phase::Idle, Event::Started) => (Phase::Recomputing, Action::ReadState),
            (Phase::Subscribed, Event::Notified) => (Phase::Recomputing, Action::ReadState),
            (Phase::Recomputing, Event::StateRead(state)) => (
                Phase::Subscribed,
                self.conclude(&state),
            ),
            (Phase::Recomputing, Event::ReadFailed(e)) => (
                Phase::Subscribed,
                Action::SkipCycle(CycleError::Read(e)),
            ),
            (phase, _) => (phase, Action::Ignore),
        };
        self.phase = phase;
        action
    }

    /// Takes a sequence of events in order and returns what was asked for after
    /// each of them.
    pub fn run(&mut self, events: &Vec<Event>) -> (r: Vec<Action>)
        ensures
            *final(self) == old(self).after_all(events@),
            r@ == old(self).actions_over(events@),
            r@.len() == events@.len(),
    {
        let mut out: Vec<Action> = Vec::new();
        let mut i: usize = 0;
        while i < events.len()
            invariant
                i <= events@.len(),
                *self == old(self).after_all(events@.take(i as int)),
                out@ == old(self).actions_over(events@.take(i as int)),
                out@.len() == i,
            decreases events@.len() - i,
        {
            let event = events[i];
            proof {
                let next = events@.take(i + 1);
                assert(next.drop_last() =~= events@.take(i as int));
                assert(next.last() == event);
            }
            let action = self.step(event);
            out.push(action);
            i = i + 1;
        }
        proof {
            assert(events@.take(i as int) =~= events@);
        }
        out
    }
}

/// Once the monitor has stopped, no event moves it or asks for anything.
pub proof fn lemma_terminated_is_final(m: Monitor, event: Event)
    requires
        m.phase == Phase::Terminated,
    ensures
        m.after(event) == m,
        m.transition(event).1 == Action::Ignore,
{
}

/// A reading that fails costs its own cycle and nothing more: the monitor goes
/// back to waiting, and the next trade starts a fresh cycle that is priced
/// from its own reading alone.
pub proof fn lemma_failed_read_skips_one_cycle(m: Monitor, e: StateReadError, state: PoolState)
    requires
        m.phase == Phase::Recomputing,
    ensures
        m.transition(Event::ReadFailed(e)) == (
            Phase::Subscribed,
            Action::SkipCycle(CycleError::Read(e)),
        ),
        m.after(Event::ReadFailed(e)).transition(Event::Notified) == (
            Phase::Recomputing,
            Action::ReadState,
        ),
        m.after(Event::ReadFailed(e)).after(Event::Notified).transition(Event::StateRead(state))
            == m.transition(Event::StateRead(state)),
{
}

/// Every trade reported while the monitor waits starts exactly one cycle, and
/// so does the start itself; nothing else asks for a reading.
pub proof fn lemma_one_cycle_per_trade(m: Monitor, event: Event)
    ensures
        m.transition(event).1 == Action::ReadState <==> ((m.phase == Phase::Idle && event
            == Event::Started) || (m.phase == Phase::Subscribed && event == Event::Notified)),
{
}

/// A degenerate reading ends its cycle with the undefined price; the monitor
/// goes on waiting.
pub proof fn lemma_degenerate_cycle_reports_undefined(m: Monitor, state: PoolState)
    requires
        m.phase == Phase::Recomputing,
        shape_matches(m.variant, state),
        crate::pricing::is_degenerate(state),
    ensures
        m.transition(Event::StateRead(state)) == (Phase::Subscribed, Action::ReportUndefined),
{
}

} // verus!
