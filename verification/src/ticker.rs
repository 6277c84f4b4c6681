//! The Interval Ticker: a tick on the bus every period, the first one a
//! period after the start.

use vstd::prelude::*;
use crate::event::SyncEvent;

verus! {

/// The period of the ticker, in seconds.
pub const TICK_PERIOD_SECS: u64 = 60;

/// The state of the Interval Ticker.
#[derive(Clone, Copy, Debug, PartialEq, Eq)]
pub enum Ticker {
    /// The period is running.
    Sleeping,
    /// A tick is being put on the bus.
    Sending,
    /// The bus is closed.
    Closed,
}

/// What the host reports to the ticker.
#[derive(Clone, Copy, Debug, PartialEq, Eq)]
pub enum TickerInput {
    /// The period has elapsed.
    Elapsed,
    /// The event was put on the bus.
    Delivered,
    /// The event could not be put on the bus: the consumer is gone.
    Undeliverable,
}

/// What the ticker wants of the host next.
#[derive(Clone, Copy, Debug, PartialEq, Eq)]
pub enum TickerAction {
    /// Sleep for so many seconds.
    Sleep { seconds: u64 },
    /// Put the event on the bus.
    Send(SyncEvent),
    /// End the ticker's thread quietly.
    Exit,
}

/// What the ticker wants in a state.
pub open spec fn ticker_action(s: Ticker) -> TickerAction {
    match s {
        Ticker::Sleeping => TickerAction::Sleep { seconds: TICK_PERIOD_SECS },
        Ticker::Sending => TickerAction::Send(SyncEvent::Tick),
        Ticker::Closed => TickerAction::Exit,
    }
}

/// The state that follows `s` on an input.
///
/// Sleeping and sending alternate for as long as the bus takes the ticks.
/// An input that does not answer what the ticker wants leaves it as it is.
pub open spec fn ticker_step(s: Ticker, input: TickerInput) -> Ticker {
    match (s, input) {
        (Ticker::Sleeping, TickerInput::Elapsed) => Ticker::Sending,
        (Ticker::Sending, TickerInput::Delivered) => Ticker::Sleeping,
        (Ticker::Sending, TickerInput::Undeliverable) => Ticker::Closed,
        _ => s,
    }
}

impl Ticker {
    /// A ticker at its beginning: the first period is running.
    pub fn start() -> (t: Ticker)
        ensures
            t == Ticker::Sleeping,
    {
        Ticker::Sleeping
    }

    /// What the host has to do next.
    pub fn action(&self) -> (a: TickerAction)
        ensures
            a == ticker_action(*self),
    {
        match self {
            Ticker::Sleeping => TickerAction::Sleep { seconds: TICK_PERIOD_SECS },
            Ticker::Sending => TickerAction::Send(SyncEvent::Tick),
            Ticker::Closed => TickerAction::Exit,
        }
    }

    /// Advances the ticker by an input.
    pub fn step(self, input: TickerInput) -> (next: Ticker)
        ensures
            next == ticker_step(self, input),
    {
        match (self, input) {
            (Ticker::Sleeping, TickerInput::Elapsed) => Ticker::Sending,
            (Ticker::Sending, TickerInput::Delivered) => Ticker::Sleeping,
            (Ticker::Sending, TickerInput::Undeliverable) => Ticker::Closed,
            _ => self,
        }
    }
}

/// A tick is sent only after a whole period.  The ticker begins asleep, for
/// the period; it comes to send a tick only from sleep and only when the
/// period has elapsed; and once the tick is delivered it sleeps for the
/// period again.
pub proof fn theorem_a_period_before_each_tick(s: Ticker, input: TickerInput)
    ensures
        ticker_action(Ticker::Sleeping) == (TickerAction::Sleep { seconds: 60 }),
        ticker_step(s, input) == Ticker::Sending && s != Ticker::Sending ==> s == Ticker::Sleeping
            && input == TickerInput::Elapsed,
        ticker_step(Ticker::Sending, TickerInput::Delivered) == Ticker::Sleeping,
{
}

} // verus!
