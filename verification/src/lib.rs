//! Searching sorted vectors with a strategy chosen from the cache geometry of
//! the machine: binary search where the level-two data cache is no larger
//! than the stride that a jump search would use, jump search otherwise.
//!
//! Every search expects its vector in ascending order and an element type
//! whose comparisons the verifier knows to form a total order. Each answers
//! with the position of an element equal to the target, or with nothing
//! exactly when there is no such element.

pub mod cache;
pub mod dispatch;
pub mod jump;
pub mod laws;
pub mod order;
pub mod scan;
pub mod stride;

pub use cache::{smallest_capacity, CacheGeometry, CacheKind};
pub use dispatch::{capacity_hint, find, find_with_hint, prefers_binary_search, HINT_LEVEL};
pub use jump::{find_jump, find_jump_with_size};
pub use scan::linear_search;
pub use stride::{get_optimal_jump_size, jump_size};
