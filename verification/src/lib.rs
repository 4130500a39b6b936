//! Single point positioning: a position, velocity and time fix from one
//! pseudo range observation per satellite in sight.
//!
//! Every physical quantity is a fixed-point integer, so that the whole
//! pipeline can be reasoned about exactly:
//!
//! | quantity                         | unit                 |
//! |----------------------------------|----------------------|
//! | lengths, ranges, range delays    | millimetre           |
//! | instants and time spans          | nanosecond           |
//! | angles                           | microdegree          |
//! | frequencies                      | hertz                |
//! | ratios and direction cosines     | parts per 10^6, 10^9 |
//!
//! The numerical models that need real arithmetic (sky state interpolation,
//! eclipse geometry, tropospheric delays, the least squares solve) are
//! handed to the solver as functions over these integers.
pub mod apriori;
pub mod candidate;
pub mod cfg;
pub mod filter;
pub mod fixed;
pub mod observation;
pub mod prelude;
pub mod solutions;
pub mod solver;
pub mod sv;
pub mod time;
pub mod tropo;
pub mod vector;

pub use crate::solver::Error;
pub use crate::vector::Vector3D;
