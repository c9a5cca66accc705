//! What can be wrong with a configuration.
use vstd::prelude::*;

verus! {

/// A configuration that the simulation cannot start from.
#[derive(Clone, Copy, Debug, PartialEq, Eq, Structural)]
pub enum ConfigError {
    /// A season without days or a day without duration.
    BadTimeScale,
    /// No climate zone has the requested name.
    UnknownZone,
    /// The zone at this index has fewer than two monthly samples.
    DegenerateCurve { zone: usize },
    /// The species at this index has phase starts out of order or out of
    /// the year, or a size limit that is not positive.
    MalformedSpecies { species: usize },
}

} // verus!
