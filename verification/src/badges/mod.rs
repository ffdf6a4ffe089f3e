//! Badges in the shields.io endpoint format.
use vstd::prelude::*;

verus! {

/// The color of a badge.
#[derive(Clone, Copy, PartialEq, Eq, Structural, Debug)]
pub enum BadgeColor {
    Brightgreen,
    Green,
    Yellowgreen,
    Yellow,
    Orange,
    Red,
    Lightgrey,
    Blue,
}

/// A badge: a label, a message and a color.
#[derive(Debug)]
pub struct Badge {
    pub schema_version: u8,
    pub label: String,
    pub message: String,
    pub color: BadgeColor,
}

impl Badge {
    /// A badge of the first schema version.
    pub fn new(label: String, message: String, color: BadgeColor) -> (r: Self)
        ensures
            r.schema_version == 1,
            r.label == label,
            r.message == message,
            r.color == color,
    {
        Self { schema_version: 1, label, message, color }
    }
}

} // verus!
