//! Display labels: optional text with optional size and colour styling.

use vstd::prelude::*;
use vstd::string::StringExecFns;
use crate::style::Color;
use crate::num::Fixed;

verus! {

/// A gauge label. Text sizes are fixed-point thousandths of a point.
#[derive(Debug, Clone, PartialEq, Eq)]
pub enum Label {
    /// No label at all.
    Blank,
    /// Bare text.
    Plain(String),
    /// Text with a font size.
    Sized(String, Fixed),
    /// Text with a font size and a colour.
    Styled(String, Fixed, Color),
}

/// `r` is `l` with `extra` appended to its text payload and every other
/// field unchanged; a blank label behaves as empty plain text.
pub open spec fn label_appended(l: Label, extra: Seq<char>, r: Label) -> bool {
    match l {
        Label::Blank => r matches Label::Plain(t) && t@ == extra,
        Label::Plain(t) => r matches Label::Plain(t2) && t2@ == t@ + extra,
        Label::Sized(t, s) => r matches Label::Sized(t2, s2) && t2@ == t@ + extra && s2 == s,
        Label::Styled(t, s, c) => (r matches Label::Styled(t2, s2, c2)
            && t2@ == t@ + extra && s2 == s && c2 == c),
    }
}

impl Label {
    /// Concatenate `text` onto the label's text payload, preserving the
    /// variant's non-text fields; appending to a blank label yields plain
    /// text.
    pub fn append(&self, text: &String) -> (r: Label)
        ensures
            label_appended(*self, text@, r),
    {
        match self {
            Label::Blank => Label::Plain(text.clone()),
            Label::Plain(t) => Label::Plain(t.clone().concat(text.as_str())),
            Label::Sized(t, s) => Label::Sized(t.clone().concat(text.as_str()), *s),
            Label::Styled(t, s, c) => Label::Styled(t.clone().concat(text.as_str()), *s, *c),
        }
    }
}

} // verus!
