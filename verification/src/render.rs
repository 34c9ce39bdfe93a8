//! Options that leave attributes out of the rendered text.

use vstd::prelude::*;

verus! {

/// An attribute category to leave out when rendering. Options are handed to each rendering call
/// and never stored, so one graph can be rendered under several choices.
#[derive(Clone, Copy, Debug, PartialEq, Eq, Structural)]
pub enum RenderOption {
    NoNodeLabels,
    NoNodeStyles,
    NoNodeColors,
}

/// Whether `option` is among `options`.
pub fn has_option(options: &[RenderOption], option: RenderOption) -> (found: bool)
    ensures
        found == options@.to_set().contains(option),
{
    let mut i: usize = 0;
    while i < options.len()
        invariant
            i <= options@.len(),
            forall|j: int| 0 <= j < i ==> options@[j] != option,
        decreases options@.len() - i,
    {
        if options[i] == option {
            return true;
        }
        i += 1;
    }
    false
}

} // verus!
