use vstd::prelude::*;

use crate::error::PumpError;
use crate::BIGGEST_POSSIBLE_DURATION;

verus! {

/// Where the controller stands. Every phase but `Idle` means that one
/// activation holds the exclusion flag, for a hold of `ms` milliseconds.
#[derive(Debug, Clone, Copy, PartialEq, Eq, Structural)]
pub enum Phase {
    /// The flag is free; the pin is de-energized.
    Idle,
    /// The holder has been told to drive the pin high.
    Raising { ms: u64 },
    /// The pin is high and the holder has been told to wait.
    Holding { ms: u64 },
    /// The hold is over and the holder has been told to drive the pin low.
    Lowering { ms: u64 },
}

/// What the caller reports to the controller.
#[derive(Debug, PartialEq, Eq)]
pub enum Event<E> {
    /// A caller asks for the pump to run for this many milliseconds.
    Request(u64),
    /// The outcome of driving the pin high.
    Raised(Result<(), E>),
    /// The hold has elapsed.
    Slept,
    /// The outcome of driving the pin low.
    Lowered(Result<(), E>),
}

/// What the controller asks the caller to do next.
#[derive(Debug, PartialEq, Eq)]
pub enum Action<E> {
    /// Drive the pin high, then report `Event::Raised`.
    SetHigh,
    /// Wait this many milliseconds, then report `Event::Slept`.
    Sleep(u64),
    /// Drive the pin low, then report `Event::Lowered`.
    SetLow,
    /// The request that this event belongs to is over, with this result.
    Done(Result<u64, PumpError<E>>),
}

/// Whether the controller, in phase `p`, is waiting for event `ev`. A request
/// may arrive at any time; the other events answer the action last handed out.
pub open spec fn awaited<E>(p: Phase, ev: Event<E>) -> bool {
    match ev {
        Event::Request(_) => true,
        Event::Raised(_) => p is Raising,
        Event::Slept => p is Holding,
        Event::Lowered(_) => p is Lowering,
    }
}

/// The transition function: the phase after `ev` and the action to carry out.
pub open spec fn next<E>(p: Phase, ev: Event<E>) -> (Phase, Action<E>)
    recommends
        awaited(p, ev),
{
    match ev {
        Event::Request(ms) => {
            if p !is Idle {
                (p, Action::Done(Err(PumpError::AlreadyOn)))
            } else if ms > BIGGEST_POSSIBLE_DURATION {
                (Phase::Idle, Action::Done(Err(PumpError::ImpossibleDuration)))
            } else {
                (Phase::Raising { ms }, Action::SetHigh)
            }
        },
        Event::Raised(r) => match (p, r) {
            (Phase::Raising { ms }, Ok(_)) => (Phase::Holding { ms }, Action::Sleep(ms)),
            (_, Err(e)) => (Phase::Idle, Action::Done(Err(PumpError::GpioError(e)))),
            _ => (p, Action::Done(Err(PumpError::AlreadyOn))),
        },
        Event::Slept => match p {
            Phase::Holding { ms } => (Phase::Lowering { ms }, Action::SetLow),
            _ => (p, Action::Done(Err(PumpError::AlreadyOn))),
        },
        Event::Lowered(r) => match (p, r) {
            (Phase::Lowering { ms }, Ok(_)) => (Phase::Idle, Action::Done(Ok(ms))),
            (_, Err(e)) => (Phase::Idle, Action::Done(Err(PumpError::GpioError(e)))),
            _ => (p, Action::Done(Err(PumpError::AlreadyOn))),
        },
    }
}

/// The pump controller: the exclusion flag, kept as the activation's phase,
/// and the output pin that it alone drives.
pub struct Worker<T> {
    phase: Phase,
    water_pump_gpio: T,
}

impl<T> Worker<T> {
    /// The controller's current phase.
    pub closed spec fn phase(&self) -> Phase {
        self.phase
    }

    /// The pin the controller owns.
    pub closed spec fn gpio(&self) -> T {
        self.water_pump_gpio
    }

    /// A controller that owns `water_pump_gpio`, with the flag free.
    pub fn new(water_pump_gpio: T) -> (w: Self)
        ensures
            w.phase() == Phase::Idle,
            w.gpio() == water_pump_gpio,
    {
        Worker { phase: Phase::Idle, water_pump_gpio }
    }

    /// The controller's current phase.
    pub fn current_phase(&self) -> (p: Phase)
        ensures
            p == self.phase(),
    {
        self.phase
    }

    /// Whether the controller is waiting for `event` now.
    pub fn awaits<E>(&self, event: &Event<E>) -> (b: bool)
        ensures
            b == awaited(self.phase(), *event),
    {
        match event {
            Event::Request(_) => true,
            Event::Raised(_) => matches!(self.phase, Phase::Raising { .. }),
            Event::Slept => matches!(self.phase, Phase::Holding { .. }),
            Event::Lowered(_) => matches!(self.phase, Phase::Lowering { .. }),
        }
    }

    /// Takes one event and answers with the action to carry out. The pin
    /// itself is left alone.
    pub fn step<E>(&mut self, event: Event<E>) -> (action: Action<E>)
        requires
            awaited(old(self).phase(), event),
        ensures
            (final(self).phase(), action) == next(old(self).phase(), event),
            final(self).gpio() == old(self).gpio(),
    {
        match event {
            Event::Request(ms) => {
                if !matches!(self.phase, Phase::Idle) {
                    Action::Done(Err(PumpError::AlreadyOn))
                } else if ms > BIGGEST_POSSIBLE_DURATION {
                    Action::Done(Err(PumpError::ImpossibleDuration))
                } else {
                    self.phase = Phase::Raising { ms };
                    Action::SetHigh
                }
            },
            Event::Raised(r) => match r {
                Ok(_) => {
                    let ms = match self.phase {
                        Phase::Raising { ms } => ms,
                        _ => 0,
                    };
                    self.phase = Phase::Holding { ms };
                    Action::Sleep(ms)
                },
                Err(e) => {
                    self.phase = Phase::Idle;
                    Action::Done(Err(PumpError::GpioError(e)))
                },
            },
            Event::Slept => {
                let ms = match self.phase {
                    Phase::Holding { ms } => ms,
                    _ => 0,
                };
                self.phase = Phase::Lowering { ms };
                Action::SetLow
            },
            Event::Lowered(r) => {
                let ms = match self.phase {
                    Phase::Lowering { ms } => ms,
                    _ => 0,
                };
                self.phase = Phase::Idle;
                match r {
                    Ok(_) => Action::Done(Ok(ms)),
                    Err(e) => Action::Done(Err(PumpError::GpioError(e))),
                }
            },
        }
    }

    /// The pin, for the holder of the flag to carry out `SetHigh` or `SetLow`.
    pub fn water_pump_gpio(&mut self) -> (g: &mut T)
        requires
            old(self).phase() is Raising || old(self).phase() is Lowering,
        ensures
            *g == old(self).gpio(),
            final(self).gpio() == *final(g),
            final(self).phase() == old(self).phase(),
    {
        &mut self.water_pump_gpio
    }
}

} // verus!
