//! A marker for caller-supplied state carried alongside a turn.

use vstd::prelude::*;

verus! {

/// Implemented by whatever state store an embedding caller attaches to
/// an agent. The engine itself never reads it.
pub trait StateProvider {
}

impl<K, V> StateProvider for std::collections::HashMap<K, V> {
}

} // verus!
