//! Exact construction of the two camera matrices a simple renderer needs:
//! a right-handed look-at view matrix and a perspective projection matrix.
//!
//! Both transforms are pure functions. To keep every entry exact, inputs are
//! taken on an integer grid (positions, directions) or as rational numbers
//! (field of view, aspect ratio, clip planes), and the resulting matrix
//! entries are held in closed form: an integer numerator over at most two
//! square roots for the view matrix, and an exact rational for the
//! projection matrix. A renderer evaluates these forms in its own floating
//! point right before uploading the matrices.

pub mod perspective;
pub mod vec3;
pub mod view;
