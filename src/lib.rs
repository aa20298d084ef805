//! The four cardinal directions, `Cardinal`, and `CardinalValues`, a record
//! indexed by `Cardinal` that holds one value for each direction.

pub mod cardinal;
pub mod values;

pub use cardinal::Cardinal;
pub use values::{CardinalEnumeratedIterator, CardinalIterator, CardinalValues};
