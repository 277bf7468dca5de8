//! A minimal dense-matrix library: a generic rectangular container stored in
//! row-major order, with construction helpers, bounds-checked element access,
//! a row-major coordinate traversal, elementwise and linear-algebra arithmetic
//! (addition, subtraction, multiplication, scalar forms), and an elementwise
//! transform. Every operation carries a contract that pins down its result.


mod add;
mod element;
mod iterate;
mod matrix;
mod mul;
mod sub;
mod transform;

pub use element::ZeroElement;
pub use iterate::MatIterator;
pub use iterate::coord_seq;
pub use iterate::lemma_coord_seq_row_major;
pub use matrix::Mat;
pub use matrix::Violation;
pub use matrix::lemma_flat_offset_bounds;
pub use mul::dot_acc;
pub use mul::dot_acc_defined;
pub use mul::lemma_dot_acc_defined_prefix;
