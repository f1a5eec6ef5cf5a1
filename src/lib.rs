//! Polar form of a complex number: which region of the plane a point lies in,
//! and the exact text of the worked explanation built around the numbers.

pub mod quadrant;
pub mod explain;
