//! A lint that warns about assignments into a field of a struct or tuple
//! literal that is built only to be overwritten, such as `(0, 0).0 = 1`.

pub mod hir;
pub mod lint;
pub mod temporary_assignment;

pub use temporary_assignment::TemporaryAssignmentPass;
