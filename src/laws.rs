use vstd::prelude::*;

use crate::error::PumpError;
use crate::worker::{awaited, next, Action, Event, Phase};
use crate::BIGGEST_POSSIBLE_DURATION;

verus! {

/// A request for more than the ceiling never leads to the pin being driven
/// high and leaves the phase as it was; when the flag is free, it is refused
/// as too long.
pub proof fn lemma_ceiling_enforced<E>(p: Phase, ms: u64)
    requires
        ms > BIGGEST_POSSIBLE_DURATION,
    ensures
        next::<E>(p, Event::Request(ms)).1 !is SetHigh,
        next::<E>(p, Event::Request(ms)).0 == p,
        p is Idle ==> next::<E>(p, Event::Request(ms)).1 == Action::<E>::Done(
            Err(PumpError::ImpossibleDuration),
        ),
{
}

/// Only one activation at a time: the pin is told to go high only from the
/// free phase and in answer to a request, and while an activation holds the
/// flag every further request is refused as already on, with nothing changed.
pub proof fn lemma_mutual_exclusion<E>(p: Phase, ev: Event<E>)
    requires
        awaited(p, ev),
    ensures
        next(p, ev).1 is SetHigh ==> p is Idle && ev is Request && next(p, ev).0 is Raising,
        p !is Idle && ev is Request ==> next(p, ev) == (p, Action::<E>::Done(
            Err(PumpError::AlreadyOn),
        )),
{
}

/// Of two requests that arrive one after the other, with no other event in
/// between, at most one drives the pin high; when the first does, the second
/// is refused as already on.
pub proof fn lemma_second_request_refused<E>(p: Phase, a: u64, b: u64)
    ensures
        ({
            let (p1, first) = next::<E>(p, Event::Request(a));
            let (p2, second) = next::<E>(p1, Event::Request(b));
            &&& !(first is SetHigh && second is SetHigh)
            &&& first is SetHigh ==> second == Action::<E>::Done(Err(PumpError::AlreadyOn))
            &&& first is SetHigh ==> p2 == p1
        }),
{
}

/// The holder keeps the flag for exactly as long as its activation runs: each
/// event it reports frees the flag if and only if the answer ends the
/// activation.
pub proof fn lemma_held_until_done<E>(p: Phase, ev: Event<E>)
    requires
        p !is Idle,
        ev !is Request,
        awaited(p, ev),
    ensures
        next(p, ev).0 is Idle <==> next(p, ev).1 is Done,
{
}

/// The flag is released on every path that ends an activation (success,
/// too long a hold, or a pin fault), so a following valid request is granted.
/// Only a refusal as already on, which answers a caller that never held the
/// flag, leaves it with its holder.
pub proof fn lemma_flag_released_on_exit<E>(p: Phase, ev: Event<E>, ms: u64)
    requires
        awaited(p, ev),
        next(p, ev).1 is Done,
        next(p, ev).1 != Action::<E>::Done(Err(PumpError::AlreadyOn)),
        ms <= BIGGEST_POSSIBLE_DURATION,
    ensures
        next(p, ev).0 is Idle,
        next::<E>(next(p, ev).0, Event::Request(ms)) == (Phase::Raising { ms }, Action::<E>::SetHigh),
{
}

/// A valid request whose pin transitions succeed goes high, holds for exactly
/// the requested time, goes low, frees the flag and returns the duration.
pub proof fn lemma_success_echoes_duration<E>(ms: u64)
    requires
        ms <= BIGGEST_POSSIBLE_DURATION,
    ensures
        next::<E>(Phase::Idle, Event::Request(ms)) == (Phase::Raising { ms }, Action::<E>::SetHigh),
        next::<E>(Phase::Raising { ms }, Event::Raised(Ok(()))) == (Phase::Holding { ms }, Action::<E>::Sleep(ms)),
        next::<E>(Phase::Holding { ms }, Event::Slept) == (Phase::Lowering { ms }, Action::<E>::SetLow),
        next::<E>(Phase::Lowering { ms }, Event::Lowered(Ok(()))) == (Phase::Idle, Action::<E>::Done(Ok(ms))),
{
}

/// A fault while driving the pin high ends the activation at once with that
/// fault: no hold and no low transition follow, and the flag is free. A fault
/// while driving it low is reported the same way.
pub proof fn lemma_device_fault_propagates<E>(ms: u64, e: E)
    ensures
        next(Phase::Raising { ms }, Event::Raised(Err(e))) == (Phase::Idle, Action::<E>::Done(
            Err(PumpError::GpioError(e)),
        )),
        next(Phase::Lowering { ms }, Event::Lowered(Err(e))) == (Phase::Idle, Action::<E>::Done(
            Err(PumpError::GpioError(e)),
        )),
{
}

} // verus!
