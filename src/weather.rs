//! The synthetic wetness scalar: a triangular wave over `0..=MAX_WETNESS`
//! that moves by one unit on every call of `advance`.
use vstd::prelude::*;

verus! {

/// Upper bound of the wetness scalar; the lower bound is zero.
pub const MAX_WETNESS: i32 = 20;

/// Abstract state of the oscillator: the counter and whether it is rising.
pub struct OscillatorView {
    pub cnt: int,
    pub rising: bool,
}

/// The state the oscillator starts in: at zero, rising.
pub open spec fn initial_view() -> OscillatorView {
    OscillatorView { cnt: 0, rising: true }
}

/// Counter in range, and the direction never points out of the range.
pub open spec fn view_wf(s: OscillatorView) -> bool {
    &&& 0 <= s.cnt <= MAX_WETNESS
    &&& s.rising ==> s.cnt < MAX_WETNESS
    &&& !s.rising ==> s.cnt > 0
}

/// One transition: a rising counter goes up and turns at the top; a falling
/// one goes down, is clamped at zero and turns there.
pub open spec fn step_view(s: OscillatorView) -> OscillatorView {
    if s.rising {
        let c = s.cnt + 1;
        OscillatorView { cnt: c, rising: !(c >= MAX_WETNESS) }
    } else {
        let c = s.cnt - 1;
        if c <= 0 {
            OscillatorView { cnt: 0, rising: true }
        } else {
            OscillatorView { cnt: c, rising: false }
        }
    }
}

/// State after `n` transitions from the initial state.
pub open spec fn view_after(n: nat) -> OscillatorView
    decreases n,
{
    if n == 0 {
        initial_view()
    } else {
        step_view(view_after((n - 1) as nat))
    }
}

/// Length of one full period of the wave.
pub open spec fn period() -> int {
    2 * MAX_WETNESS
}

/// Closed form of the wave: up from zero to the top, then back down.
pub open spec fn triangle_wave(n: nat) -> int {
    let r = n as int % period();
    if r <= MAX_WETNESS {
        r
    } else {
        period() - r
    }
}

/// Synthetic weather state: a counter in `0..=MAX_WETNESS` and a direction.
#[derive(Clone, Copy, Debug)]
pub struct WeatherOscillator {
    cnt: i32,
    rising: bool,
}

impl WeatherOscillator {
    pub closed spec fn view(&self) -> OscillatorView {
        OscillatorView { cnt: self.cnt as int, rising: self.rising }
    }

    #[verifier::type_invariant]
    closed spec fn inv(self) -> bool {
        view_wf(self.view())
    }

    /// Starts at zero, rising.
    pub fn new() -> (r: Self)
        ensures
            r.view() == initial_view(),
    {
        WeatherOscillator { cnt: 0, rising: true }
    }

    /// Current wetness.
    pub fn wetness(&self) -> (r: i32)
        ensures
            r as int == self.view().cnt,
            0 <= r <= MAX_WETNESS,
    {
        proof {
            use_type_invariant(self);
        }
        self.cnt
    }

    /// Whether the next `advance` goes up.
    pub fn is_rising(&self) -> (r: bool)
        ensures
            r == self.view().rising,
    {
        self.rising
    }

    /// Moves the wave by one unit and returns the new wetness.
    pub fn advance(&mut self) -> (r: i32)
        ensures
            final(self).view() == step_view(old(self).view()),
            r as int == final(self).view().cnt,
            0 <= r <= MAX_WETNESS,
    {
        proof {
            use_type_invariant(&*self);
        }
        let next = if self.rising {
            let c = self.cnt + 1;
            WeatherOscillator { cnt: c, rising: !(c >= MAX_WETNESS) }
        } else {
            let c = self.cnt - 1;
            if c <= 0 {
                WeatherOscillator { cnt: 0, rising: true }
            } else {
                WeatherOscillator { cnt: c, rising: false }
            }
        };
        *self = next;
        self.cnt
    }
}

/// Every transition keeps the counter in range.
pub proof fn lemma_step_preserves_wf(s: OscillatorView)
    requires
        view_wf(s),
    ensures
        view_wf(step_view(s)),
{
}

/// Whatever the number of calls of `advance` from the initial state, the
/// counter stays in `0..=MAX_WETNESS`; it follows the triangular wave, and it
/// rises exactly in the first half of each period.
pub proof fn lemma_oscillator_follows_wave(n: nat)
    ensures
        view_wf(view_after(n)),
        view_after(n).cnt == triangle_wave(n),
        view_after(n).rising == (n as int % period() < MAX_WETNESS),
    decreases n,
{
    if n > 0 {
        let m = (n - 1) as nat;
        lemma_oscillator_follows_wave(m);
        assert(n as int % 40 == if m as int % 40 == 39 { 0 } else { m as int % 40 + 1 });
    }
}

} // verus!
