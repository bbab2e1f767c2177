//! Warnings about configuration options.
use vstd::prelude::*;

verus! {

/// What may be wrong with a configuration option without making it unusable.
#[derive(Clone, Debug, PartialOrd, PartialEq)]
#[allow(inconsistent_fields)]
pub enum Warning {
    /// The option has no value.
    ConfigOptionValueMissing { name: String },
    /// No role was given for the option.
    ConfigOptionRoleNotProvided { name: String },
    /// None of the option's roles is the given one.
    ConfigOptionRoleNotFound { name: String, role: String },
}

} // verus!
