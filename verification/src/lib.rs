//! Run-time intermediate representation for a configurable real-time
//! instrument dashboard: telemetry channels, gauge widgets bound to those
//! channels, a rule-based logic layer deriving alarm states from channel
//! values, and the numeric/visual mapping primitives (scales, formatters,
//! colour patterns) that turn a raw value into something drawable.
//!
//! Every continuous quantity (channel values, coordinates, sizes, colour
//! components, seconds) is carried as a fixed-point number: an `i64`
//! counting thousandths of a unit. All arithmetic on these quantities is
//! exact integer arithmetic, so every stage of the value-resolution
//! pipeline is a pure, fully specified function.

pub mod num;
pub mod geom;
pub mod label;
pub mod scale;
pub mod format;
pub mod logic;
pub mod style;
pub mod config;

pub use geom::{Point, Bounds, Screen};
pub use label::Label;
pub use scale::{GaugeStyle, Divisions, Scale};
pub use format::Format;
pub use logic::{State, Test, When, Logic};
pub use style::{Color, Pattern, Style, StyleSet};
pub use config::{Unit, Channel, Lamp, GaugeType, Gauge, Function, Config};
