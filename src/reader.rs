//! Where a product configuration is read from.
use vstd::prelude::*;

use crate::error::owned;

verus! {

/// The locations of a configuration in JSON: the units, and the properties.
pub struct ConfigJsonReader {
    pub config_spec_path: String,
    pub property_spec_path: String,
}

impl ConfigJsonReader {
    pub fn new(config_spec_path: &str, property_spec_path: &str) -> (r: ConfigJsonReader)
        ensures
            r.config_spec_path@ == config_spec_path@,
            r.property_spec_path@ == property_spec_path@,
    {
        ConfigJsonReader {
            config_spec_path: owned(config_spec_path),
            property_spec_path: owned(property_spec_path),
        }
    }
}

} // verus!
