//! Per-node state for the incremental restyling of a tree of styled nodes.
//!
//! For every node the crate keeps the styles that the node holds, the styles
//! that it held before the pass that is at work on it, and what is left to
//! do for the node and below it. The styles themselves, the captures of a
//! node's state and the damage of a change are made elsewhere; here they are
//! stored and handed back as they came.

pub mod element;
pub mod hint;
pub mod restyle;
pub mod styles;

pub use element::{ElementData, ElementDataStyles};
pub use hint::{DescendantRestyleHint, RestyleHint, StoredRestyleHint};
pub use restyle::{RestyleData, TElement, TRestyleDamage};
pub use styles::{ElementStyles, PseudoElement, PseudoStyles, PseudoStylesInner};
