//! Decision logic of a family of dense least-squares solvers: which solve
//! method a problem gets, and how the rolling-window engine walks its window.

pub mod method;
pub mod rolling;
