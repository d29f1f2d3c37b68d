//! An owned, forward-only iterator over the elements of a `Vec<T>` or a
//! `Box<[T]>`, whose whole state fits in three machine words.

mod into;
pub mod laws;
mod small_iter;

pub use into::IntoSmallIterExt;
pub use small_iter::{step, SmallIter};
