//! Forward traversal of a contiguous sequence that hands out, with each
//! element, the non-empty run of elements that follow it.
pub mod slide;
pub mod traversal;
