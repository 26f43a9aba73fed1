//! Debounced trigger: a click schedules one delayed effect, a new click
//! cancels the pending one, and a click that follows the last scheduling
//! one too closely is taken as a double click and schedules nothing.

use vstd::prelude::*;

use crate::clock::{elapsed, elapsed_ms, later, later_ms};

verus! {

/// Delay, in milliseconds, between a click and its effect.
pub const DEFAULT_TIMEOUT_MS: u64 = 50;

/// A click fewer than this many milliseconds after the last scheduling one is
/// a double click.
pub const DEFAULT_CLICK_THRESHOLD_MS: u64 = 100;

/// The state of a click handler.
pub struct ClickState {
    /// When the pending effect is due, if one is pending.
    pub pending_due: Option<u64>,
    /// When the last click that scheduled an effect happened.
    pub last_click: Option<u64>,
    /// Delay between a click and its effect.
    pub timeout: u64,
    /// Window in which a second click counts as a double click.
    pub click_threshold: u64,
}

/// Whether a click at `now` is a double click.
pub open spec fn is_double_click(s: ClickState, now: u64) -> bool {
    match s.last_click {
        Some(t) => elapsed(t, now) < s.click_threshold,
        None => false,
    }
}

/// The state after a click at `now`: the pending effect is cancelled and,
/// unless it is a double click, a new one is scheduled.
pub open spec fn after_click(s: ClickState, now: u64) -> ClickState {
    if is_double_click(s, now) {
        ClickState { pending_due: None, ..s }
    } else {
        ClickState { pending_due: Some(later(now, s.timeout)), last_click: Some(now), ..s }
    }
}

/// The state after a cancellation.
pub open spec fn after_cancel(s: ClickState) -> ClickState {
    ClickState { pending_due: None, ..s }
}

/// Whether the timer set for `due` fires its effect at `now`.
pub open spec fn fires(s: ClickState, due: u64, now: u64) -> bool {
    s.pending_due == Some(due) && now >= due
}

/// The state after the timer set for `due` went off at `now`.
pub open spec fn after_timer(s: ClickState, due: u64, now: u64) -> ClickState {
    if fires(s, due, now) {
        ClickState { pending_due: None, ..s }
    } else {
        s
    }
}

/// Two clicks closer together than both the double-click window and the
/// delay leave nothing to fire: the first click's effect is not due before
/// the second click, which cancels it and schedules nothing. The first click
/// must not itself be a double click.
pub proof fn lemma_double_click_fires_nothing(s: ClickState, t1: u64, t2: u64)
    requires
        !is_double_click(s, t1),
        t1 <= t2 < u64::MAX,
        t2 - t1 < s.click_threshold,
        t2 - t1 < s.timeout,
    ensures
        forall|due: u64, at: u64| at <= t2 ==> !fires(after_click(s, t1), due, at),
        after_click(after_click(s, t1), t2).pending_due is None,
        forall|due: u64, at: u64| !fires(after_click(after_click(s, t1), t2), due, at),
{
}

/// Two clicks at least the double-click window apart, the first one's timer
/// going off before the second click, fire one effect each and no more.
pub proof fn lemma_spaced_clicks_fire_once_each(s: ClickState, t1: u64, f1: u64, t2: u64, f2: u64)
    requires
        !is_double_click(s, t1),
        t1 <= t2,
        t2 - t1 >= s.click_threshold,
        later(t1, s.timeout) <= f1 <= t2,
        later(t2, s.timeout) <= f2,
    ensures
        fires(after_click(s, t1), later(t1, s.timeout), f1),
        forall|due: u64, at: u64|
            !fires(after_timer(after_click(s, t1), later(t1, s.timeout), f1), due, at),
        !is_double_click(after_timer(after_click(s, t1), later(t1, s.timeout), f1), t2),
        fires(
            after_click(after_timer(after_click(s, t1), later(t1, s.timeout), f1), t2),
            later(t2, s.timeout),
            f2,
        ),
        forall|due: u64, at: u64|
            !fires(
                after_timer(
                    after_click(after_timer(after_click(s, t1), later(t1, s.timeout), f1), t2),
                    later(t2, s.timeout),
                    f2,
                ),
                due,
                at,
            ),
{
}

/// After a cancellation no timer fires an effect, however late it goes off.
pub proof fn lemma_cancel_prevents_effect(s: ClickState, due: u64, at: u64)
    ensures
        !fires(after_cancel(s), due, at),
        after_timer(after_cancel(s), due, at) == after_cancel(s),
{
}

/// A click handler. The caller runs a timer for each scheduled effect and
/// asks `timer_elapsed` whether the effect still fires.
pub struct ClickHandler {
    pending_due: Option<u64>,
    last_click_time: Option<u64>,
    timeout: u64,
    click_threshold: u64,
}

impl View for ClickHandler {
    type V = ClickState;

    closed spec fn view(&self) -> ClickState {
        ClickState {
            pending_due: self.pending_due,
            last_click: self.last_click_time,
            timeout: self.timeout,
            click_threshold: self.click_threshold,
        }
    }
}

impl ClickHandler {
    pub fn new() -> (r: Self)
        ensures
            r@ == (ClickState {
                pending_due: None,
                last_click: None,
                timeout: DEFAULT_TIMEOUT_MS,
                click_threshold: DEFAULT_CLICK_THRESHOLD_MS,
            }),
    {
        ClickHandler {
            pending_due: None,
            last_click_time: None,
            timeout: DEFAULT_TIMEOUT_MS,
            click_threshold: DEFAULT_CLICK_THRESHOLD_MS,
        }
    }

    /// A click at `now_ms`. Returns when the newly scheduled effect is due,
    /// or none for a double click.
    pub fn click(&mut self, now_ms: u64) -> (r: Option<u64>)
        ensures
            final(self)@ == after_click(old(self)@, now_ms),
            r == final(self)@.pending_due,
            r is None <==> is_double_click(old(self)@, now_ms),
    {
        self.cancel();
        if let Some(last) = self.last_click_time {
            if elapsed_ms(last, now_ms) < self.click_threshold {
                return None;
            }
        }
        let due = later_ms(now_ms, self.timeout);
        self.pending_due = Some(due);
        self.last_click_time = Some(now_ms);
        Some(due)
    }

    /// Cancels the pending effect, if any.
    pub fn cancel(&mut self)
        ensures
            final(self)@ == after_cancel(old(self)@),
    {
        self.pending_due = None;
    }

    /// The timer set for `due_ms` went off at `now_ms`: returns whether its
    /// effect fires. It fires once, and only if it is still the pending one.
    pub fn timer_elapsed(&mut self, due_ms: u64, now_ms: u64) -> (r: bool)
        ensures
            r == fires(old(self)@, due_ms, now_ms),
            final(self)@ == after_timer(old(self)@, due_ms, now_ms),
    {
        match self.pending_due {
            Some(d) => {
                if d == due_ms && now_ms >= d {
                    self.pending_due = None;
                    true
                } else {
                    false
                }
            },
            None => false,
        }
    }

    /// Whether an effect is pending.
    pub fn is_pending(&self) -> (r: bool)
        ensures
            r == self@.pending_due is Some,
    {
        self.pending_due.is_some()
    }
}

} // verus!
