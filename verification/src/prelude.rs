//! The items that a caller of the solver needs, in one place.
pub use crate::apriori::AprioriPosition;
pub use crate::candidate::{Candidate, PseudoRange};
pub use crate::cfg::{Config, InternalDelay, Modeling};
pub use crate::filter::EclipseState;
pub use crate::observation::Observation;
pub use crate::solutions::{
    Estimate,
    PVTSVData,
    PVTSVTimeDelay,
    PVTSolution,
    PVTSolutionType,
    SVTable,
};
pub use crate::solver::{Error, InterpolationResult, Mode, Models, Notice, Solver};
pub use crate::sv::{Constellation, SV};
pub use crate::time::{Duration, Epoch, TimeScale};
pub use crate::tropo::{TropoComponents, TropoSource};
pub use crate::vector::Vector3D;
