use dash_ir::{Color, Divisions, GaugeStyle, Pattern, Scale, State, Style, StyleSet};

fn unit_scale() -> Scale {
    // 0.0 .. 100.0 in fixed-point thousandths.
    Scale(0, 100_000, Divisions::Unmarked, GaugeStyle::Filled)
}

#[test]
fn range_is_max_minus_min() {
    assert_eq!(unit_scale().range(), 100_000);
}

#[test]
fn percent_is_clamped_permille() {
    let s = unit_scale();
    assert_eq!(s.to_percent(0), 0);
    assert_eq!(s.to_percent(50_000), 500);
    assert_eq!(s.to_percent(100_000), 1000);
    assert_eq!(s.to_percent(-5_000), 0);
    assert_eq!(s.to_percent(150_000), 1000);
}

#[test]
fn angle_endpoints_are_antisymmetric() {
    // The sweep runs from -0.625 pi to +0.625 pi, in millionths of pi.
    let s = unit_scale();
    assert_eq!(s.to_angle(0), -625_000);
    assert_eq!(s.to_angle(100_000), 625_000);
    assert_eq!(s.to_angle(0), -s.to_angle(100_000));
    assert_eq!(s.to_angle(50_000), 0);
    // Out-of-range values clamp to the same two extremes.
    assert_eq!(s.to_angle(-1_000_000), -625_000);
    assert_eq!(s.to_angle(1_000_000), 625_000);
}

#[test]
fn scale_validity_rejects_empty_range() {
    assert!(unit_scale().valid());
    assert!(!Scale(100_000, 0, Divisions::Unmarked, GaugeStyle::Filled).valid());
    assert!(!Scale(0, 0, Divisions::Unmarked, GaugeStyle::Filled).valid());
}

#[test]
fn hidden_and_solid_ignore_the_clock() {
    let c = Color(1000, 0, 0, 1000);
    for t in [0u64, 123, 999, 5_000] {
        assert_eq!(Pattern::Hidden.resolve(t), None);
        assert_eq!(Pattern::Solid(c).resolve(t), Some(c));
    }
}

#[test]
fn slow_blink_is_on_first_half_of_each_second() {
    let c = Color(0, 1000, 0, 1000);
    let p = Pattern::SlowBlink(c);
    assert_eq!(p.resolve(0), Some(c));
    assert_eq!(p.resolve(499), Some(c));
    assert_eq!(p.resolve(500), None);
    assert_eq!(p.resolve(999), None);
    assert_eq!(p.resolve(1000), Some(c));
}

#[test]
fn fast_blink_cycles_every_quarter_second() {
    let c = Color(0, 0, 1000, 1000);
    let p = Pattern::FastBlink(c);
    assert_eq!(p.resolve(0), Some(c));
    assert_eq!(p.resolve(124), Some(c));
    assert_eq!(p.resolve(125), None);
    assert_eq!(p.resolve(249), None);
    assert_eq!(p.resolve(250), Some(c));
}

#[test]
fn blink_sequence_repeats_after_a_full_period() {
    let c = Color(0, 0, 1000, 1000);
    for t in 0..1000u64 {
        assert_eq!(Pattern::SlowBlink(c).resolve(t), Pattern::SlowBlink(c).resolve(t + 1000));
        assert_eq!(Pattern::FastBlink(c).resolve(t), Pattern::FastBlink(c).resolve(t + 250));
    }
}

fn quiet() -> Style {
    Style {
        background: Pattern::Hidden,
        foreground: Pattern::Solid(Color(1000, 1000, 1000, 1000)),
        indicator: Pattern::Solid(Color(0, 0, 0, 1000)),
    }
}

fn loud() -> Style {
    Style {
        background: Pattern::FastBlink(Color(1000, 0, 0, 1000)),
        foreground: Pattern::Solid(Color(1000, 1000, 0, 1000)),
        indicator: Pattern::Hidden,
    }
}

#[test]
fn resolve_prefers_the_states_own_entry() {
    let set = StyleSet {
        entries: vec![
            (State::Default, quiet()),
            (State::Alarm("hot".to_string()), loud()),
        ],
    };
    assert_eq!(set.resolve(&State::Alarm("hot".to_string())), Some(loud()));
    assert_eq!(set.resolve(&State::Default), Some(quiet()));
}

#[test]
fn resolve_falls_back_to_default_for_unknown_alarms() {
    let set = StyleSet {
        entries: vec![(State::Default, quiet())],
    };
    assert_eq!(set.resolve(&State::Alarm("cold".to_string())), Some(quiet()));
}

#[test]
fn resolve_without_default_entry_fails() {
    let set = StyleSet {
        entries: vec![(State::Alarm("hot".to_string()), loud())],
    };
    assert_eq!(set.resolve(&State::Alarm("cold".to_string())), None);
    assert_eq!(set.get(&State::Alarm("hot".to_string())), Some(loud()));
}

#[test]
fn debug_style_is_the_documented_constant() {
    let s = Style::default();
    assert_eq!(s.background, Pattern::SlowBlink(Color(1000, 0, 0, 1000)));
    assert_eq!(s.foreground, Pattern::Solid(Color(1000, 0, 0, 1000)));
    assert_eq!(s.indicator, Pattern::FastBlink(Color(1000, 0, 1000, 1000)));
}
