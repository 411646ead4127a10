//! A Monte Carlo path tracer's rendering policy: the render settings, the
//! bounce budget of the path estimator, the choice among the roots of a
//! ray/sphere intersection, and the placement of finished pixels into an
//! 8-bit image buffer.
pub mod frame;
pub mod path;
pub mod settings;
pub mod sphere;
