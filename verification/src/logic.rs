//! The rule-based logic layer: ordered per-channel predicate rules that
//! derive a semantic alarm state from a channel's current value.

use vstd::prelude::*;
use crate::num::Fixed;

verus! {

/// The semantic condition a gauge is in: the quiet default, or a named
/// alarm. Used as the key that selects a visual style.
#[derive(Debug, Clone, PartialEq, Eq, Hash)]
pub enum State {
    Default,
    Alarm(String),
}

/// Abstract value of a state: `None` for the default, the alarm's name
/// otherwise. Two states are the same condition exactly when their views
/// are equal.
pub open spec fn state_view(s: State) -> Option<Seq<char>> {
    match s {
        State::Default => None,
        State::Alarm(n) => Some(n@),
    }
}

/// Whether two states name the same condition.
pub fn state_eq(a: &State, b: &State) -> (r: bool)
    ensures
        r == (state_view(*a) == state_view(*b)),
{
    match (a, b) {
        (State::Default, State::Default) => true,
        (State::Alarm(x), State::Alarm(y)) => x.eq(y),
        _ => false,
    }
}

/// A single-channel numeric predicate, over fixed-point channel values.
#[derive(Debug, Clone, Copy, PartialEq, Eq, Structural)]
pub enum Test {
    Always,
    Never,
    LessThan(Fixed),
    GreaterThan(Fixed),
    Equal(Fixed),
    Between(Fixed, Fixed),
}

/// Predicate semantics: strict inequalities for `LessThan`/`GreaterThan`,
/// exact equality for `Equal`, and a closed interval (inclusive on both
/// ends) for `Between`.
pub open spec fn test_matches(t: Test, v: int) -> bool {
    match t {
        Test::Always => true,
        Test::Never => false,
        Test::LessThan(x) => v < x,
        Test::GreaterThan(x) => v > x,
        Test::Equal(x) => v == x,
        Test::Between(lo, hi) => lo <= v && v <= hi,
    }
}

/// A `Between` interval must not be empty; anything else is a
/// configuration error caught at validation time.
pub open spec fn test_valid(t: Test) -> bool {
    t matches Test::Between(lo, hi) ==> lo <= hi
}

impl Test {
    /// Evaluate the predicate against a channel value.
    pub fn passes(&self, value: Fixed) -> (r: bool)
        ensures
            r == test_matches(*self, value as int),
    {
        match *self {
            Test::Always => true,
            Test::Never => false,
            Test::LessThan(x) => value < x,
            Test::GreaterThan(x) => value > x,
            Test::Equal(x) => value == x,
            Test::Between(lo, hi) => lo <= value && value <= hi,
        }
    }

    /// Whether the predicate is well formed (see `test_valid`).
    pub fn valid(&self) -> (r: bool)
        ensures
            r == test_valid(*self),
    {
        match *self {
            Test::Between(lo, hi) => lo <= hi,
            _ => true,
        }
    }
}

/// One logic rule: on this channel, when the test passes, resolve to this
/// state.
#[derive(Debug, Clone)]
pub struct When(pub String, pub Test, pub State);

/// The global rule list, evaluated top to bottom; order is significant.
pub type Logic = Vec<When>;

/// Result of scanning `rules` in order for channel `chan` holding value
/// `v`: the state of the first rule on that channel whose test passes,
/// viewed through `state_view`; `None` (the default state) when no rule
/// matches.
pub open spec fn eval_logic_view(rules: Seq<When>, chan: Seq<char>, v: int)
    -> Option<Seq<char>>
    decreases rules.len(),
{
    if rules.len() == 0 {
        None
    } else if rules[0].0@ == chan && test_matches(rules[0].1, v) {
        state_view(rules[0].2)
    } else {
        eval_logic_view(rules.skip(1), chan, v)
    }
}

/// Resolve the state of a gauge bound to channel `channel`, whose current
/// value is `value`, by scanning the rule list in order: the first rule on
/// that channel whose test is satisfied wins; if none matches the result
/// is `State::Default`. This is pure and is re-run every frame.
pub fn eval_logic(rules: &Vec<When>, channel: &String, value: Fixed) -> (r: State)
    ensures
        state_view(r) == eval_logic_view(rules@, channel@, value as int),
{
    let n = rules.len();
    let mut i: usize = 0;
    proof {
        assert(rules@.skip(0) =~= rules@);
    }
    while i < n
        invariant
            i <= n,
            n == rules@.len(),
            eval_logic_view(rules@, channel@, value as int)
                == eval_logic_view(rules@.skip(i as int), channel@, value as int),
        decreases n - i,
    {
        proof {
            assert(rules@.skip(i as int)[0] == rules@[i as int]);
            assert(rules@.skip(i as int).skip(1) =~= rules@.skip(i as int + 1));
        }
        let w = &rules[i];
        if w.0.eq(channel) && w.1.passes(value) {
            return match &w.2 {
                State::Default => State::Default,
                State::Alarm(name) => State::Alarm(name.clone()),
            };
        }
        i += 1;
    }
    proof {
        assert(rules@.skip(n as int).len() == 0);
    }
    State::Default
}

} // verus!
