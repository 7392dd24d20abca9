//! Colours, time-varying patterns and the per-state style table.

use vstd::prelude::*;
use crate::logic::{State, state_view};
use crate::num::Fixed;

verus! {

/// An RGBA colour; each component is a fixed-point value in `[0, 1000]`
/// standing for `[0.0, 1.0]`.
#[derive(Debug, Clone, Copy, PartialEq, Eq, Structural)]
pub struct Color(pub Fixed, pub Fixed, pub Fixed, pub Fixed);

/// A time-varying colour/visibility treatment for one slot of a style.
#[derive(Debug, Clone, Copy, PartialEq, Eq, Structural)]
pub enum Pattern {
    Hidden,
    Solid(Color),
    SlowBlink(Color),
    FastBlink(Color),
}

/// Blink cycle of `SlowBlink`, in milliseconds (1 Hz, 50% duty cycle).
pub const SLOW_BLINK_PERIOD_MS: u64 = 1000;

/// Blink cycle of `FastBlink`, in milliseconds (4 Hz, 50% duty cycle).
pub const FAST_BLINK_PERIOD_MS: u64 = 250;

/// The colour a pattern shows at `t` milliseconds after process start,
/// or `None` when nothing is drawn. A blinking pattern is on during the
/// first half of each cycle; the phase comes from the shared clock, so
/// all gauges blink in phase.
pub open spec fn pattern_color(p: Pattern, t: nat) -> Option<Color> {
    match p {
        Pattern::Hidden => None,
        Pattern::Solid(c) => Some(c),
        Pattern::SlowBlink(c) => if t % 1000 < 500 { Some(c) } else { None },
        Pattern::FastBlink(c) => if t % 250 < 125 { Some(c) } else { None },
    }
}

impl Pattern {
    /// Resolve the pattern against the current clock: the colour to draw,
    /// or `None` when the pattern is hidden or in the off half of its
    /// blink cycle.
    pub fn resolve(&self, time_ms: u64) -> (r: Option<Color>)
        ensures
            r == pattern_color(*self, time_ms as nat),
    {
        match self {
            Pattern::Hidden => None,
            Pattern::Solid(c) => Some(*c),
            Pattern::SlowBlink(c) => {
                if time_ms % SLOW_BLINK_PERIOD_MS < SLOW_BLINK_PERIOD_MS / 2 {
                    Some(*c)
                } else {
                    None
                }
            },
            Pattern::FastBlink(c) => {
                if time_ms % FAST_BLINK_PERIOD_MS < FAST_BLINK_PERIOD_MS / 2 {
                    Some(*c)
                } else {
                    None
                }
            },
        }
    }
}

/// Every pattern's resolution is periodic in time: advancing the clock by
/// a full second (one slow cycle, four fast cycles) never changes what is
/// drawn, and a fast blink already repeats after its own 250 ms cycle.
pub proof fn lemma_pattern_periodic(p: Pattern, t: nat)
    ensures
        pattern_color(p, t + 1000) == pattern_color(p, t),
        p matches Pattern::FastBlink(_) ==> pattern_color(p, t + 250) == pattern_color(p, t),
{
    assert((t + 1000) % 1000 == t % 1000) by (nonlinear_arith);
    assert((t + 250) % 250 == t % 250) by (nonlinear_arith);
    assert((t + 1000) % 250 == t % 250) by (nonlinear_arith);
}

/// The three pattern slots a gauge is drawn with in one state.
#[derive(Debug, Clone, Copy, PartialEq, Eq, Structural)]
pub struct Style {
    pub background: Pattern,
    pub foreground: Pattern,
    pub indicator: Pattern,
}

impl Style {
    /// A deliberately loud style, usable as a fallback while debugging a
    /// configuration with missing styles.
    pub fn default() -> (r: Style)
        ensures
            r == (Style {
                background: Pattern::SlowBlink(Color(1000, 0, 0, 1000)),
                foreground: Pattern::Solid(Color(1000, 0, 0, 1000)),
                indicator: Pattern::FastBlink(Color(1000, 0, 1000, 1000)),
            }),
    {
        Style {
            background: Pattern::SlowBlink(Color(1000, 0, 0, 1000)),
            foreground: Pattern::Solid(Color(1000, 0, 0, 1000)),
            indicator: Pattern::FastBlink(Color(1000, 0, 1000, 1000)),
        }
    }
}

/// First style paired with a state whose view is `key`, scanning in order.
pub open spec fn lookup_style(entries: Seq<(State, Style)>, key: Option<Seq<char>>)
    -> Option<Style>
    decreases entries.len(),
{
    if entries.len() == 0 {
        None
    } else if state_view(entries[0].0) == key {
        Some(entries[0].1)
    } else {
        lookup_style(entries.skip(1), key)
    }
}

/// The style the resolver yields for a state: the state's own entry if
/// present, otherwise the `State::Default` entry, otherwise nothing (a
/// configuration error).
pub open spec fn resolved_style(entries: Seq<(State, Style)>, key: Option<Seq<char>>)
    -> Option<Style>
{
    match lookup_style(entries, key) {
        Some(s) => Some(s),
        None => lookup_style(entries, None),
    }
}

/// A style table that holds a default entry resolves every state to some
/// style: the fallback means a gauge of a valid configuration can always
/// be rendered.
pub proof fn lemma_resolve_total(entries: Seq<(State, Style)>, key: Option<Seq<char>>)
    requires
        lookup_style(entries, None) is Some,
    ensures
        resolved_style(entries, key) is Some,
{
}

/// Mapping from resolved `State` to `Style`, kept as an association list
/// whose keys are unique in a well-formed configuration.
#[derive(Debug, Clone)]
pub struct StyleSet {
    pub entries: Vec<(State, Style)>,
}

impl StyleSet {
    /// The style recorded for exactly `state`, if any.
    pub fn get(&self, state: &State) -> (r: Option<Style>)
        ensures
            r == lookup_style(self.entries@, state_view(*state)),
    {
        let n = self.entries.len();
        let mut i: usize = 0;
        proof {
            assert(self.entries@.skip(0) =~= self.entries@);
        }
        while i < n
            invariant
                i <= n,
                n == self.entries@.len(),
                lookup_style(self.entries@, state_view(*state))
                    == lookup_style(self.entries@.skip(i as int), state_view(*state)),
            decreases n - i,
        {
            proof {
                assert(self.entries@.skip(i as int)[0] == self.entries@[i as int]);
                assert(self.entries@.skip(i as int).skip(1) =~= self.entries@.skip(i as int + 1));
            }
            if crate::logic::state_eq(&self.entries[i].0, state) {
                return Some(self.entries[i].1);
            }
            i += 1;
        }
        proof {
            assert(self.entries@.skip(n as int).len() == 0);
        }
        None
    }

    /// Look the state up, falling back to the `State::Default` entry when
    /// the state has no entry of its own; `None` means the set lacks even
    /// a default entry, which a valid configuration never does.
    pub fn resolve(&self, state: &State) -> (r: Option<Style>)
        ensures
            r == resolved_style(self.entries@, state_view(*state)),
    {
        match self.get(state) {
            Some(s) => Some(s),
            None => self.get(&State::Default),
        }
    }
}

} // verus!
