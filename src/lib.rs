//! String concatenation that builds a tree of terms and materializes it
//! into one owned `String`, reusing an owned buffer of the tree when one
//! has room for the whole result.
//!
//! A concatenation starts with [`CAT`]; characters, string slices and owned
//! strings are added with `+`. Nothing is copied until the tree is turned
//! into a `String` or appended to one.

mod buffer;
pub mod cat;
pub mod laws;
pub mod render;
pub mod text;
pub mod tree;

pub use cat::{CapacityOverflow, Cat};
pub use render::CatDebug;
pub use text::MAX_LEN;
pub use tree::{CatMany, CatOne, CatStart, Side, CAT};
