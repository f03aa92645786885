//! Marker component of squid entities.

use vstd::prelude::*;

verus! {

/// Marks an entity as a squid. It carries no data.
#[derive(Clone, Copy, Debug, Default)]
pub struct SquidComponent;

} // verus!
