//! Recognition of a double click: the first click arms the gesture and
//! starts its timer, the second one is judged by the time since.
use std::time::Duration;
use std::time::Instant;
use vstd::prelude::*;

verus! {

#[verifier::external_type_specification]
#[verifier::external_body]
pub struct ExInstant(Instant);

/// `std::time::Instant::now`: the current reading of the monotonic clock.
/// Nothing is claimed of the value, which depends on the time of the call.
#[verifier::external_body]
fn instant_now() -> Instant {
    Instant::now()
}

/// `std::time::Instant::elapsed`: the time since `start`. Nothing is claimed
/// of the value, which depends on the time of the call.
#[verifier::external_body]
fn instant_elapsed(start: &Instant) -> Duration {
    start.elapsed()
}

/// `std::time::Duration::as_nanos`: the whole length of `d` in nanoseconds.
/// A `Duration` is opaque here, so nothing is claimed of the value.
#[verifier::external_body]
pub(crate) fn duration_as_nanos(d: &Duration) -> u128 {
    d.as_nanos()
}

/// How many clicks the gesture has seen.
#[derive(Debug, PartialEq, Eq, Structural, Clone, Copy)]
pub enum ClickTy {
    Zero,
    One,
    Two,
}

impl Default for ClickTy {
    fn default() -> (ty: Self)
        ensures
            ty == ClickTy::Zero,
    {
        ClickTy::Zero
    }
}

/// A click gesture: its count of clicks, and the time of the first click
/// while one is pending.
pub struct ClickGesture {
    ty: ClickTy,
    timer: Option<Instant>,
}

impl View for ClickGesture {
    type V = ClickTy;

    closed spec fn view(&self) -> ClickTy {
        self.ty
    }
}

impl ClickGesture {
    /// The timer runs exactly while one click is pending.
    #[verifier::type_invariant]
    spec fn timer_runs_while_armed(self) -> bool {
        self.timer.is_some() == (self.ty == ClickTy::One)
    }

    /// Whether the gesture holds the time of a first click.
    pub closed spec fn has_timer(&self) -> bool {
        self.timer is Some
    }

    /// A gesture that has seen no click.
    pub fn new() -> (g: Self)
        ensures
            g@ == ClickTy::Zero,
            !g.has_timer(),
    {
        ClickGesture { ty: ClickTy::Zero, timer: None }
    }

    pub fn is_zero(&self) -> (b: bool)
        ensures
            b == (self@ == ClickTy::Zero),
    {
        self.ty == ClickTy::Zero
    }

    /// Whether one click is pending; exactly then the gesture holds the
    /// time of that click, so `dur` may be asked.
    pub fn is_one(&self) -> (b: bool)
        ensures
            b == (self@ == ClickTy::One),
            b == self.has_timer(),
    {
        proof {
            use_type_invariant(self);
        }
        self.ty == ClickTy::One
    }

    pub fn is_two(&self) -> (b: bool)
        ensures
            b == (self@ == ClickTy::Two),
    {
        self.ty == ClickTy::Two
    }

    /// Records a first click: the gesture is armed and its timer starts now.
    pub fn timing(&mut self)
        ensures
            final(self)@ == ClickTy::One,
            final(self).has_timer(),
    {
        let now = instant_now();
        *self = ClickGesture { ty: ClickTy::One, timer: Some(now) };
    }

    /// The time since the first click. Only an armed gesture has a timer.
    pub fn dur(&self) -> Duration
        requires
            self@ == ClickTy::One,
    {
        proof {
            use_type_invariant(self);
        }
        let start = self.timer.as_ref().unwrap();
        instant_elapsed(start)
    }

    /// Forgets every click seen.
    pub fn reset(&mut self)
        ensures
            final(self)@ == ClickTy::Zero,
            !final(self).has_timer(),
    {
        *self = ClickGesture::new();
    }
}

impl Default for ClickGesture {
    fn default() -> (g: Self)
        ensures
            g@ == ClickTy::Zero,
            !g.has_timer(),
    {
        ClickGesture::new()
    }
}

} // verus!
