//! Faults that are injected on purpose, to see how the services stand them.
use vstd::prelude::*;

verus! {

/// The shortest delay that is injected, in milliseconds.
pub const DELAY_MIN_MS: u64 = 100;

/// The longest delay that is injected, in milliseconds.
pub const DELAY_MAX_MS: u64 = 500;

/// The status of a request that is dropped.
pub const DROP_STATUS: u16 = 503;

/// What happens to a request.
#[derive(Debug, Clone, Copy, PartialEq, Eq, Structural)]
pub enum Fault {
    /// It is passed on.
    Forward,
    /// It is answered that the service is unavailable.
    Drop,
    /// It is passed on after so many milliseconds.
    Delay(u64),
}

/// What the dice say of a request.
#[derive(Debug, Clone, Copy)]
pub struct Dice {
    pub drop: bool,
    pub delay: bool,
    pub delay_ms: u64,
}

/// What happens to a request when the dice were thrown; they are not thrown where no faults are
/// wanted. A request that is dropped is not delayed.
pub fn inject(dice: Option<Dice>) -> (r: Fault)
    ensures
        r == match dice {
            Some(dice) => if dice.drop {
                Fault::Drop
            } else if dice.delay {
                Fault::Delay(dice.delay_ms)
            } else {
                Fault::Forward
            },
            None => Fault::Forward,
        },
{
    match dice {
        Some(dice) => if dice.drop {
            Fault::Drop
        } else if dice.delay {
            Fault::Delay(dice.delay_ms)
        } else {
            Fault::Forward
        },
        None => Fault::Forward,
    }
}

/// The body of the answer to a request that is dropped.
pub fn drop_body() -> (r: &'static str)
    ensures
        r@ == "{\"error\":\"CHAOS_DROP\",\"message\":\"chaos fault injected\"}"@,
{
    "{\"error\":\"CHAOS_DROP\",\"message\":\"chaos fault injected\"}"
}

/// Without dice nothing happens to a request. With them it is dropped if they say so, whatever else they
/// say; else it is delayed by as long as they say, if they say so; and it is passed on at once only if
/// they say neither.
pub proof fn faults_follow_the_dice(dice: Option<Dice>, r: Fault)
    requires
        call_ensures(inject, (dice,), r),
    ensures
        r is Drop <==> (dice matches Some(thrown) && thrown.drop),
        r is Delay <==> (dice matches Some(thrown) && !thrown.drop && thrown.delay),
        r matches Fault::Delay(ms) ==> ms == dice->0.delay_ms,
        dice is None ==> r is Forward,
{
}

/// What is injected: a delay of 100 to 500 milliseconds, or the answer that the service is unavailable,
/// with a body that says why.
pub proof fn injected_faults(body: &'static str)
    requires
        call_ensures(drop_body, (), body),
    ensures
        DELAY_MIN_MS == 100 && DELAY_MAX_MS == 500 && DROP_STATUS == 503,
        body@ == "{\"error\":\"CHAOS_DROP\",\"message\":\"chaos fault injected\"}"@,
{
}

} // verus!
