//! Finite-difference gradient descent for tiny sigmoid models, together with a
//! small dense-matrix primitive.
//!
//! Every routine is generic over the [`Scalar`] arithmetic it runs on: the
//! library fixes which operations are applied and in which order, and the
//! scalar type supplies the operations themselves.

pub mod cost;
pub mod dataset;
pub mod error;
pub mod experiments;
pub mod fixed;
pub mod laws;
pub mod linear;
pub mod matrix;
pub mod network;
pub mod random;
pub mod scalar;
pub mod session;
pub mod trainer;
pub mod unit;

pub use dataset::{TrainingDataSet, TrainingExample};
pub use error::Error;
pub use fixed::Fixed;
pub use laws::Lawful;
pub use linear::LinearCell;
pub use matrix::Matrix;
pub use network::CompositeNetwork;
pub use scalar::Scalar;
pub use session::{Phase, Session};
pub use trainer::Model;
pub use unit::Unit;
