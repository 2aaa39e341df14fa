//! Closed tagged unions with static dispatch, generated from a compact
//! declaration of member types that share one capability.
//!
//! A declaration (an enum whose variants are bare tags or one-type tuple
//! variants, or the standalone grammar of `declarative`) is validated into a
//! bundle, then rendered as source: the union itself, a conversion from each
//! member type into it, the `use_<name>` / `match_<name>` dispatch macros
//! and, when a capability is named, an `inner` method that views the active
//! payload through it. `laws` states what holds of every generated bundle.
pub mod model;
pub mod validate;
pub mod emit;
pub mod naming;
pub mod generate;
pub mod laws;
pub mod declarative;

pub use generate::bundle;
