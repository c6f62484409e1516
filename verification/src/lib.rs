//! Point masses under mutual Newtonian gravitation: the scalar algebra the
//! vector and force mathematics is written over, a two-component vector, and
//! a fixed-step fourth-order Runge-Kutta integrator.
pub mod integers;
pub mod math;
mod parallel;
pub mod physics;
