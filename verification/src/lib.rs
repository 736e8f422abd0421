//! Two small, independent computations: the sum of the squares of the even
//! integers in a fixed range, and a nested application of a binary addition
//! rule to a fixed base operand.

pub mod even_squares;
pub mod nested_addition;
