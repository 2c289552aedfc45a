//! Turning polled key-combination state into debounced toggle events.
use vstd::prelude::*;

verus! {

/// The least time between two accepted toggles, in milliseconds.
pub const TOGGLE_DEBOUNCE_MS: u64 = 500;

/// Edge detection with a minimum spacing between accepted toggles.
pub struct HotkeyDebouncer {
    held: bool,
    last_toggle_ms: u64,
}

/// The mathematical state of a debouncer.
pub struct DebouncerView {
    /// The combination was down at the previous poll.
    pub held: bool,
    /// When the last toggle was accepted.
    pub last_toggle_ms: nat,
}

impl View for HotkeyDebouncer {
    type V = DebouncerView;

    closed spec fn view(&self) -> DebouncerView {
        DebouncerView { held: self.held, last_toggle_ms: self.last_toggle_ms as nat }
    }
}

/// Whether a poll fires a toggle: the combination is newly down and the
/// debounce interval has passed since the last accepted toggle.
pub open spec fn fires(d: DebouncerView, pressed: bool, now_ms: nat) -> bool {
    pressed && !d.held && now_ms >= d.last_toggle_ms + TOGGLE_DEBOUNCE_MS
}

impl HotkeyDebouncer {
    /// A debouncer started at `now_ms`, which counts as the last toggle, so
    /// that nothing fires within the interval after start.
    pub fn new(now_ms: u64) -> (d: Self)
        ensures
            !d@.held,
            d@.last_toggle_ms == now_ms,
    {
        HotkeyDebouncer { held: false, last_toggle_ms: now_ms }
    }

    /// Takes one poll of the key state at time `now_ms` and says whether it
    /// is a toggle.
    pub fn poll(&mut self, pressed: bool, now_ms: u64) -> (fire: bool)
        ensures
            fire == fires(old(self)@, pressed, now_ms as nat),
            final(self)@.held == pressed,
            final(self)@.last_toggle_ms == (if fire {
                now_ms as nat
            } else {
                old(self)@.last_toggle_ms
            }),
    {
        let fire: bool = pressed && !self.held && now_ms >= self.last_toggle_ms
            && now_ms - self.last_toggle_ms >= TOGGLE_DEBOUNCE_MS;
        if fire {
            self.last_toggle_ms = now_ms;
        }
        self.held = pressed;
        fire
    }
}

/// While the combination stays down, no poll after the first fires again.
pub proof fn held_combination_fires_once(d: DebouncerView, now_ms: nat)
    requires
        d.held,
    ensures
        !fires(d, true, now_ms),
{
}

} // verus!
