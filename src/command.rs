use vstd::prelude::*;

use crate::stylesheet::Stylesheet;
use crate::value::Value;

verus! {

/// A message passed up the view tree through the bubble queue, or out to the
/// application through the outbound channel.
#[derive(Clone, Debug, PartialEq, Eq)]
pub enum Command {
    /// The editable widget of a row produced a new value.
    ValueChanged(usize, Value),
    /// Persist this full copy of the stylesheet.
    SaveStylesheet(Stylesheet),
    /// Close the current screen.
    CloseView,
}

} // verus!
