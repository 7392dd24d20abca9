//! The root configuration aggregate and its load-time validation.
//!
//! Everything here is built once when a configuration is loaded and is
//! immutable afterwards; only the live channel *values*, supplied from
//! outside each frame, change. `Config::validate` decides exactly the
//! configuration errors the evaluation pipeline assumes away: unknown
//! channel references, empty `Between` intervals, non-positive or
//! out-of-range scale endpoints, out-of-range gauge bounds, time scale
//! factors too large for exact arithmetic, duplicate style keys and
//! missing default styles. Bounds on the live channel *values* themselves
//! are the telemetry collaborator's to keep.

use vstd::prelude::*;
use crate::geom::{Bounds, Screen};
use crate::label::Label;
use crate::scale::{Scale, GaugeStyle, scale_valid};
use crate::format::{Format, format_valid};
use crate::logic::{State, When, Logic, state_view, state_eq, test_valid};
use crate::style::{StyleSet, lookup_style};
use crate::num::Fixed;

verus! {

/// The unit a channel's values are measured in.
#[derive(Debug, Clone, PartialEq, Eq)]
pub enum Unit {
    Unnamed,
    Named(String),
}

/// A named, unit-tagged telemetry source, referenced by name from gauges
/// and logic rules.
#[derive(Debug, Clone)]
pub struct Channel {
    pub name: String,
    pub units: Unit,
}

/// Shape of an idiot-light gauge.
#[derive(Debug, Clone, PartialEq, Eq)]
pub enum Lamp {
    Round,
    Rect,
    RoundedRect,
    Image(String),
}

/// The kind of a gauge, which decides whether the scale mapper or the
/// formatter applies to its channel's value.
#[derive(Debug, Clone)]
pub enum GaugeType {
    Dial(Scale),
    VerticalBar(Scale),
    HorizontalBar(Scale),
    VerticalWedge(Scale),
    HorizontalWedge(Scale),
    IdiotLight(Lamp),
    Text(Format, GaugeStyle),
}

/// One visual widget, bound to a channel by name.
#[derive(Debug, Clone)]
pub struct Gauge {
    pub name: String,
    pub label: Label,
    pub kind: GaugeType,
    pub channel: String,
    pub bounds: Bounds,
    pub styles: StyleSet,
}

/// A derived-channel transfer function; pure metadata, with coefficients
/// as fixed-point values.
#[derive(Debug, Clone)]
pub enum Function {
    Identity,
    Scale(Fixed),
    Linear(Fixed, Fixed),
    Polynomial(Vec<Fixed>),
}

/// The root aggregate: screen, channel list, pages of gauges, and the
/// global logic rule list.
#[derive(Debug, Clone)]
pub struct Config {
    pub screen: Screen,
    pub channels: Vec<Channel>,
    pub pages: Vec<Vec<Gauge>>,
    pub logic: Logic,
}

/// Some channel in the list carries the name `name`.
pub open spec fn channel_listed(channels: Seq<Channel>, name: Seq<char>) -> bool {
    exists|i: int| 0 <= i < channels.len() && #[trigger] channels[i].name@ == name
}

/// Every scale a gauge kind carries spans a positive, in-range interval,
/// and a text gauge's format descriptor is well formed.
pub open spec fn kind_valid(k: GaugeType) -> bool {
    match k {
        GaugeType::Dial(s) => scale_valid(s.0, s.1),
        GaugeType::VerticalBar(s) => scale_valid(s.0, s.1),
        GaugeType::HorizontalBar(s) => scale_valid(s.0, s.1),
        GaugeType::VerticalWedge(s) => scale_valid(s.0, s.1),
        GaugeType::HorizontalWedge(s) => scale_valid(s.0, s.1),
        GaugeType::IdiotLight(_) => true,
        GaugeType::Text(f, _) => format_valid(f),
    }
}

/// No two entries of the style table name the same state.
pub open spec fn styleset_keys_unique(entries: Seq<(State, crate::style::Style)>) -> bool {
    forall|a: int, b: int| 0 <= a < b < entries.len()
        ==> #[trigger] state_view(entries[a].0) != #[trigger] state_view(entries[b].0)
}

/// A gauge is valid when its channel reference resolves, its scale and
/// format (if any) are well formed, its bounds lie in the working range,
/// and its style table has unique keys and a `State::Default` entry to
/// fall back on.
pub open spec fn gauge_valid(channels: Seq<Channel>, g: Gauge) -> bool {
    &&& channel_listed(channels, g.channel@)
    &&& kind_valid(g.kind)
    &&& crate::geom::bounds_in_range(g.bounds)
    &&& styleset_keys_unique(g.styles.entries@)
    &&& lookup_style(g.styles.entries@, None) is Some
}

/// A logic rule is valid when its channel reference resolves and its
/// `Between` interval (if any) is not empty.
pub open spec fn when_valid(channels: Seq<Channel>, w: When) -> bool {
    channel_listed(channels, w.0@) && test_valid(w.1)
}

/// Every gauge on every page is valid.
pub open spec fn pages_valid(channels: Seq<Channel>, pages: Seq<Vec<Gauge>>) -> bool {
    forall|p: int, g: int| 0 <= p < pages.len() && 0 <= g < pages[p]@.len()
        ==> gauge_valid(channels, #[trigger] pages[p]@[g])
}

/// Every logic rule is valid.
pub open spec fn rules_valid(channels: Seq<Channel>, rules: Seq<When>) -> bool {
    forall|i: int| 0 <= i < rules.len() ==> when_valid(channels, #[trigger] rules[i])
}

/// A configuration is valid when all its gauges and all its rules are.
pub open spec fn config_valid(c: Config) -> bool {
    pages_valid(c.channels@, c.pages@) && rules_valid(c.channels@, c.logic@)
}

/// Whether some channel in `channels` is named `name`.
pub fn channel_known(channels: &Vec<Channel>, name: &String) -> (r: bool)
    ensures
        r == channel_listed(channels@, name@),
{
    let n = channels.len();
    let mut i: usize = 0;
    while i < n
        invariant
            i <= n,
            n == channels@.len(),
            forall|k: int| 0 <= k < i ==> #[trigger] channels@[k].name@ != name@,
        decreases n - i,
    {
        if channels[i].name.eq(name) {
            return true;
        }
        i += 1;
    }
    false
}

impl GaugeType {
    /// Whether the kind's scale, if it has one, is well formed.
    pub fn valid(&self) -> (r: bool)
        ensures
            r == kind_valid(*self),
    {
        match self {
            GaugeType::Dial(s) => s.valid(),
            GaugeType::VerticalBar(s) => s.valid(),
            GaugeType::HorizontalBar(s) => s.valid(),
            GaugeType::VerticalWedge(s) => s.valid(),
            GaugeType::HorizontalWedge(s) => s.valid(),
            GaugeType::IdiotLight(_) => true,
            GaugeType::Text(f, _) => f.valid(),
        }
    }
}

impl StyleSet {
    /// Whether no two entries name the same state.
    pub fn distinct_keys(&self) -> (r: bool)
        ensures
            r == styleset_keys_unique(self.entries@),
    {
        let n = self.entries.len();
        let mut i: usize = 0;
        while i < n
            invariant
                i <= n,
                n == self.entries@.len(),
                forall|a: int, b: int| 0 <= a < b < n && a < i
                    ==> #[trigger] state_view(self.entries@[a].0)
                        != #[trigger] state_view(self.entries@[b].0),
            decreases n - i,
        {
            let mut j: usize = i + 1;
            while j < n
                invariant
                    i < j <= n,
                    i < n,
                    n == self.entries@.len(),
                    forall|b: int| i < b < j
                        ==> state_view(self.entries@[i as int].0)
                            != #[trigger] state_view(self.entries@[b].0),
                decreases n - j,
            {
                if state_eq(&self.entries[i].0, &self.entries[j].0) {
                    return false;
                }
                j += 1;
            }
            i += 1;
        }
        true
    }

    /// Whether the table holds a `State::Default` entry.
    pub fn has_default(&self) -> (r: bool)
        ensures
            r == (lookup_style(self.entries@, None) is Some),
    {
        match self.get(&State::Default) {
            Some(_) => true,
            None => false,
        }
    }
}

impl Gauge {
    /// Whether the gauge is valid against the given channel list (see
    /// `gauge_valid`).
    pub fn valid(&self, channels: &Vec<Channel>) -> (r: bool)
        ensures
            r == gauge_valid(channels@, *self),
    {
        channel_known(channels, &self.channel) && self.kind.valid()
            && self.bounds.within_range() && self.styles.distinct_keys()
            && self.styles.has_default()
    }
}

impl When {
    /// Whether the rule is valid against the given channel list (see
    /// `when_valid`).
    pub fn valid(&self, channels: &Vec<Channel>) -> (r: bool)
        ensures
            r == when_valid(channels@, *self),
    {
        channel_known(channels, &self.0) && self.1.valid()
    }
}

impl Config {
    /// Decide, at load time, whether the configuration is free of the
    /// errors the evaluation pipeline assumes away: true exactly when
    /// every gauge and every rule is valid (see `config_valid`).
    pub fn validate(&self) -> (r: bool)
        ensures
            r == config_valid(*self),
    {
        let np = self.pages.len();
        let mut p: usize = 0;
        while p < np
            invariant
                p <= np,
                np == self.pages@.len(),
                forall|a: int, g: int| 0 <= a < p && 0 <= g < self.pages@[a]@.len()
                    ==> gauge_valid(self.channels@, #[trigger] self.pages@[a]@[g]),
            decreases np - p,
        {
            let page = &self.pages[p];
            let ng = page.len();
            let mut g: usize = 0;
            while g < ng
                invariant
                    g <= ng,
                    p < np,
                    np == self.pages@.len(),
                    ng == self.pages@[p as int]@.len(),
                    page == &self.pages@[p as int],
                    forall|a: int, gg: int| 0 <= a < p && 0 <= gg < self.pages@[a]@.len()
                        ==> gauge_valid(self.channels@, #[trigger] self.pages@[a]@[gg]),
                    forall|gg: int| 0 <= gg < g
                        ==> gauge_valid(self.channels@, #[trigger] self.pages@[p as int]@[gg]),
                decreases ng - g,
            {
                if !page[g].valid(&self.channels) {
                    return false;
                }
                g += 1;
            }
            p += 1;
        }
        let nr = self.logic.len();
        let mut i: usize = 0;
        while i < nr
            invariant
                i <= nr,
                nr == self.logic@.len(),
                pages_valid(self.channels@, self.pages@),
                forall|k: int| 0 <= k < i
                    ==> when_valid(self.channels@, #[trigger] self.logic@[k]),
            decreases nr - i,
        {
            if !self.logic[i].valid(&self.channels) {
                return false;
            }
            i += 1;
        }
        true
    }
}

} // verus!
