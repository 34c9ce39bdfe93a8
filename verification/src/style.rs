//! The closed vocabulary of line and fill styles.

use vstd::prelude::*;

verus! {

/// A style keyword of the DOT language, or `Unset` where no style is set.
#[derive(Clone, Copy, Debug, PartialEq, Eq, Structural)]
pub enum Style {
    Unset,
    Solid,
    Dashed,
    Dotted,
    Bold,
    Rounded,
    Diagonals,
    Filled,
    Striped,
    Wedged,
    Tapered,
    Radial,
    Invisible,
}

impl Style {
    /// The DOT keyword of this style; empty for `Style::Unset`, which is never written out.
    pub open spec fn keyword(self) -> Seq<char> {
        match self {
            Style::Unset => ""@,
            Style::Solid => "solid"@,
            Style::Dashed => "dashed"@,
            Style::Dotted => "dotted"@,
            Style::Bold => "bold"@,
            Style::Rounded => "rounded"@,
            Style::Diagonals => "diagonals"@,
            Style::Filled => "filled"@,
            Style::Striped => "striped"@,
            Style::Wedged => "wedged"@,
            Style::Tapered => "tapered"@,
            Style::Radial => "radial"@,
            Style::Invisible => "invis"@,
        }
    }

    /// The keyword as a string slice.
    pub fn as_slice(self) -> (keyword: &'static str)
        ensures
            keyword@ == self.keyword(),
    {
        match self {
            Style::Unset => "",
            Style::Solid => "solid",
            Style::Dashed => "dashed",
            Style::Dotted => "dotted",
            Style::Bold => "bold",
            Style::Rounded => "rounded",
            Style::Diagonals => "diagonals",
            Style::Filled => "filled",
            Style::Striped => "striped",
            Style::Wedged => "wedged",
            Style::Tapered => "tapered",
            Style::Radial => "radial",
            Style::Invisible => "invis",
        }
    }
}

impl Default for Style {
    /// No style is set unless one is chosen.
    fn default() -> (style: Self)
        ensures
            style == Style::Unset,
    {
        Style::Unset
    }
}

} // verus!
