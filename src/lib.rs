//! Typed Content-Security-Policy directives, a deduplicating header builder
//! with a canonical output order, and path-based selection of a policy.
pub mod kinds;
pub mod values;
pub mod directive;
pub mod sorting;
pub mod builder;
pub mod laws;
pub mod matcher;

pub use kinds::CspDirectiveType;
pub use values::CspValue;
pub use directive::CspDirective;
pub use builder::CspHeaderBuilder;
pub use matcher::{first_match, resolve, CspUrlMatcher, PatternError};
