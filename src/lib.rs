//! Square integer matrices of order 2 to 4 (structure, products, cofactors,
//! determinants and exact inverses), and the text layout of a pixel canvas.
pub mod algebra;
pub mod matrix;
pub mod laws;
mod adjugate;
pub mod canvas;
pub mod tuples;
