//! Effect events: what the simulation tells the presentation layer.

use crate::geometry::Point;
use vstd::prelude::*;

verus! {

/// A visual effect that the presentation layer should show. The simulation
/// only writes these.
#[derive(Clone, Copy, Debug, PartialEq, Eq, Structural)]
pub enum EffectTypeEvent {
    /// A click struck a bug at `pos`.
    Click { pos: Point },
    /// A dead bug was taken from the field at `pos`.
    Dead { pos: Point },
}

} // verus!
