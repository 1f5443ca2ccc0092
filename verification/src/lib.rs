//! A pluggable type-oracle chain for a static type checker of a declarative
//! configuration scripting language.
//!
//! A type oracle answers three narrow questions about named types: whether one
//! type is a subtype of another, what type a named attribute on a type has,
//! and whether a type can be called as a function. Several independently
//! authored rule providers contribute partial answers; an ordered chain merges
//! them with a fixed precedence policy.

pub mod docs;
pub mod laws;
pub mod oracle;
pub mod strutil;
pub mod ty;

pub use oracle::OracleChain;
pub use oracle::RuleProvider;
pub use oracle::standard_oracle;

pub use docs::DocAttr;
pub use docs::DocObject;
pub use docs::DocStore;

pub use strutil::str_eq;
pub use strutil::str_ends_with;
pub use ty::AttrAnswer;
pub use ty::AttrVerdict;
pub use ty::CallAnswer;
pub use ty::CallVerdict;
pub use ty::FnSig;
pub use ty::Ty;
