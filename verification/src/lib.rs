//! Debug tags: small values that mark where another value came from, so that
//! a container can check that an index it is handed was made by itself.
//!
//! Equal tags are a hint, not a proof, of a common origin; unequal tags are
//! never copies of one another.
//!
//! The library keeps no state of its own. The counter that all threads share
//! is an [`OffsetAllocator`]; the counter that one thread owns is a
//! [`LocalCounter`]. Whoever embeds the library decides where the two live.

pub mod checked;
pub mod offset;
pub mod unchecked;

pub use checked::next;
pub use checked::DebugTag;
pub use checked::LocalCounter;

pub use offset::OffsetAllocator;
pub use offset::INCREMENT;
