use dash_ir::{
    Bounds, Channel, Color, Config, Divisions, Gauge, GaugeStyle, GaugeType, Label, Pattern,
    Scale, Screen, State, Style, StyleSet, Test, Unit, When,
};

fn base_style() -> Style {
    Style {
        background: Pattern::Hidden,
        foreground: Pattern::Solid(Color(1000, 1000, 1000, 1000)),
        indicator: Pattern::Solid(Color(0, 0, 0, 1000)),
    }
}

fn default_styles() -> StyleSet {
    StyleSet { entries: vec![(State::Default, base_style())] }
}

fn temp_gauge() -> Gauge {
    Gauge {
        name: "coolant".to_string(),
        label: Label::Plain("Coolant".to_string()),
        kind: GaugeType::Dial(Scale(0, 100_000, Divisions::Unmarked, GaugeStyle::Outline)),
        channel: "temp".to_string(),
        bounds: Bounds { x: 0, y: 0, width: 100_000, height: 100_000 },
        styles: default_styles(),
    }
}

fn base_config() -> Config {
    Config {
        screen: Screen { width: 640_000, height: 480_000 },
        channels: vec![Channel { name: "temp".to_string(), units: Unit::Unnamed }],
        pages: vec![vec![temp_gauge()]],
        logic: vec![When(
            "temp".to_string(),
            Test::GreaterThan(100_000),
            State::Alarm("hot".to_string()),
        )],
    }
}

#[test]
fn well_formed_config_validates() {
    assert!(base_config().validate());
}

#[test]
fn unknown_gauge_channel_is_rejected() {
    let mut c = base_config();
    c.pages[0][0].channel = "pressure".to_string();
    assert!(!c.validate());
}

#[test]
fn unknown_rule_channel_is_rejected() {
    let mut c = base_config();
    c.logic[0].0 = "pressure".to_string();
    assert!(!c.validate());
}

#[test]
fn empty_between_interval_is_rejected() {
    let mut c = base_config();
    c.logic[0].1 = Test::Between(10_000, 5_000);
    assert!(!c.validate());
}

#[test]
fn non_positive_scale_range_is_rejected() {
    let mut c = base_config();
    c.pages[0][0].kind =
        GaugeType::VerticalBar(Scale(100_000, 0, Divisions::Unmarked, GaugeStyle::Filled));
    assert!(!c.validate());
}

#[test]
fn missing_default_style_is_rejected() {
    let mut c = base_config();
    c.pages[0][0].styles =
        StyleSet { entries: vec![(State::Alarm("hot".to_string()), base_style())] };
    assert!(!c.validate());
}

#[test]
fn duplicate_style_keys_are_rejected() {
    let mut c = base_config();
    c.pages[0][0].styles = StyleSet {
        entries: vec![
            (State::Default, base_style()),
            (State::Alarm("hot".to_string()), base_style()),
            (State::Alarm("hot".to_string()), base_style()),
        ],
    };
    assert!(!c.validate());
}

#[test]
fn distinct_alarm_names_are_distinct_keys() {
    let styles = StyleSet {
        entries: vec![
            (State::Default, base_style()),
            (State::Alarm("hot".to_string()), base_style()),
            (State::Alarm("cold".to_string()), base_style()),
        ],
    };
    assert!(styles.distinct_keys());
    assert!(styles.has_default());
}

#[test]
fn out_of_range_bounds_are_rejected() {
    let mut c = base_config();
    c.pages[0][0].bounds.width = 2_000_000_000_000_000;
    assert!(!c.validate());
}

#[test]
fn oversized_time_factor_is_rejected() {
    let mut c = base_config();
    c.pages[0][0].kind =
        GaugeType::Text(dash_ir::Format::Time(4_000_000_000), GaugeStyle::IndicatorOnly);
    assert!(!c.validate());
}

#[test]
fn text_gauge_needs_no_scale() {
    let mut c = base_config();
    c.pages[0][0].kind = GaugeType::Text(dash_ir::Format::Integer(4), GaugeStyle::IndicatorOnly);
    assert!(c.validate());
}
