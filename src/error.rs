//! Errors of loading a product configuration and of validating values.
use vstd::prelude::*;

use crate::types::{PropertyName, PropertyNameView, PropertyValueSpec, PropertyValueView};

verus! {

broadcast use vstd::string::group_string_axioms;

/// Everything that can go wrong in a product configuration or in one of its values.
#[derive(Clone, Debug, PartialEq, PartialOrd)]
#[allow(inconsistent_fields)]
pub enum Error {
    FileNotFound { file_name: String },
    FileNotParsable { file_name: String, reason: String },
    YamlFileNotParsable { file: String, reason: String },
    YamlNotParsable { content: String, reason: String },
    InvalidVersion { reason: String, version: String },
    VersionNotSupported {
        property_name: PropertyName,
        product_version: String,
        required_version: String,
    },
    VersionDeprecated {
        property_name: String,
        product_version: String,
        deprecated_version: String,
    },
    ConfigSpecPropertiesNotFound { name: String },
    PropertyNotFound { property_name: PropertyName },
    PropertySpecRoleNotFound { name: PropertyName, role: String },
    PropertySpecRoleNotProvided { name: PropertyName },
    PropertySpecRoleNotProvidedByUser { name: PropertyName },
    PropertyValueOutOfBounds { property_name: String, received: String, expected: String },
    PropertyValueMissing { property_name: String },
    PropertySpecValueMissingForVersion {
        property_name: PropertyName,
        property_values: Vec<PropertyValueSpec>,
        version: String,
    },
    PropertyValueNotInAllowedValues {
        property_name: String,
        value: String,
        allowed_values: Vec<String>,
    },
    DatatypeNotMatching { property_name: String, value: String, datatype: String },
    DatatypeRegexNotMatching { property_name: String, value: String },
    EmptyRegexPattern { unit: String },
    InvalidRegexPattern { unit: String, regex: String },
    RegexNotEvaluable {
        property_name: String,
        unit: String,
        regex: String,
        value: String,
        reason: String,
    },
    UnitNotProvided { property_name: PropertyName },
    UnitSettingNotFound { property_name: PropertyName, unit: String },
}

/// The mathematical value of an [`Error`]: every text as a character sequence.
#[allow(inconsistent_fields)]
pub enum ErrorView {
    FileNotFound { file_name: Seq<char> },
    FileNotParsable { file_name: Seq<char>, reason: Seq<char> },
    YamlFileNotParsable { file: Seq<char>, reason: Seq<char> },
    YamlNotParsable { content: Seq<char>, reason: Seq<char> },
    InvalidVersion { reason: Seq<char>, version: Seq<char> },
    VersionNotSupported {
        property_name: PropertyNameView,
        product_version: Seq<char>,
        required_version: Seq<char>,
    },
    VersionDeprecated {
        property_name: Seq<char>,
        product_version: Seq<char>,
        deprecated_version: Seq<char>,
    },
    ConfigSpecPropertiesNotFound { name: Seq<char> },
    PropertyNotFound { property_name: PropertyNameView },
    PropertySpecRoleNotFound { name: PropertyNameView, role: Seq<char> },
    PropertySpecRoleNotProvided { name: PropertyNameView },
    PropertySpecRoleNotProvidedByUser { name: PropertyNameView },
    PropertyValueOutOfBounds { property_name: Seq<char>, received: Seq<char>, expected: Seq<char> },
    PropertyValueMissing { property_name: Seq<char> },
    PropertySpecValueMissingForVersion {
        property_name: PropertyNameView,
        property_values: Seq<PropertyValueView>,
        version: Seq<char>,
    },
    PropertyValueNotInAllowedValues {
        property_name: Seq<char>,
        value: Seq<char>,
        allowed_values: Seq<Seq<char>>,
    },
    DatatypeNotMatching { property_name: Seq<char>, value: Seq<char>, datatype: Seq<char> },
    DatatypeRegexNotMatching { property_name: Seq<char>, value: Seq<char> },
    EmptyRegexPattern { unit: Seq<char> },
    InvalidRegexPattern { unit: Seq<char>, regex: Seq<char> },
    RegexNotEvaluable {
        property_name: Seq<char>,
        unit: Seq<char>,
        regex: Seq<char>,
        value: Seq<char>,
        reason: Seq<char>,
    },
    UnitNotProvided { property_name: PropertyNameView },
    UnitSettingNotFound { property_name: PropertyNameView, unit: Seq<char> },
}

pub open spec fn strings_view(v: Seq<String>) -> Seq<Seq<char>> {
    v.map_values(|s: String| s@)
}

pub open spec fn value_specs_view(v: Seq<PropertyValueSpec>) -> Seq<PropertyValueView> {
    v.map_values(|s: PropertyValueSpec| s@)
}

impl View for Error {
    type V = ErrorView;

    open spec fn view(&self) -> ErrorView {
        match self {
            Error::FileNotFound { file_name } => ErrorView::FileNotFound { file_name: file_name@ },
            Error::FileNotParsable { file_name, reason } => ErrorView::FileNotParsable {
                file_name: file_name@,
                reason: reason@,
            },
            Error::YamlFileNotParsable { file, reason } => ErrorView::YamlFileNotParsable {
                file: file@,
                reason: reason@,
            },
            Error::YamlNotParsable { content, reason } => ErrorView::YamlNotParsable {
                content: content@,
                reason: reason@,
            },
            Error::InvalidVersion { reason, version } => ErrorView::InvalidVersion {
                reason: reason@,
                version: version@,
            },
            Error::VersionNotSupported { property_name, product_version, required_version } =>
                ErrorView::VersionNotSupported {
                property_name: property_name@,
                product_version: product_version@,
                required_version: required_version@,
            },
            Error::VersionDeprecated { property_name, product_version, deprecated_version } =>
                ErrorView::VersionDeprecated {
                property_name: property_name@,
                product_version: product_version@,
                deprecated_version: deprecated_version@,
            },
            Error::ConfigSpecPropertiesNotFound { name } => ErrorView::ConfigSpecPropertiesNotFound {
                name: name@,
            },
            Error::PropertyNotFound { property_name } => ErrorView::PropertyNotFound {
                property_name: property_name@,
            },
            Error::PropertySpecRoleNotFound { name, role } => ErrorView::PropertySpecRoleNotFound {
                name: name@,
                role: role@,
            },
            Error::PropertySpecRoleNotProvided { name } => ErrorView::PropertySpecRoleNotProvided {
                name: name@,
            },
            Error::PropertySpecRoleNotProvidedByUser { name } =>
                ErrorView::PropertySpecRoleNotProvidedByUser { name: name@ },
            Error::PropertyValueOutOfBounds { property_name, received, expected } =>
                ErrorView::PropertyValueOutOfBounds {
                property_name: property_name@,
                received: received@,
                expected: expected@,
            },
            Error::PropertyValueMissing { property_name } => ErrorView::PropertyValueMissing {
                property_name: property_name@,
            },
            Error::PropertySpecValueMissingForVersion { property_name, property_values, version } =>
                ErrorView::PropertySpecValueMissingForVersion {
                property_name: property_name@,
                property_values: value_specs_view(property_values@),
                version: version@,
            },
            Error::PropertyValueNotInAllowedValues { property_name, value, allowed_values } =>
                ErrorView::PropertyValueNotInAllowedValues {
                property_name: property_name@,
                value: value@,
                allowed_values: strings_view(allowed_values@),
            },
            Error::DatatypeNotMatching { property_name, value, datatype } =>
                ErrorView::DatatypeNotMatching {
                property_name: property_name@,
                value: value@,
                datatype: datatype@,
            },
            Error::DatatypeRegexNotMatching { property_name, value } =>
                ErrorView::DatatypeRegexNotMatching { property_name: property_name@, value: value@ },
            Error::EmptyRegexPattern { unit } => ErrorView::EmptyRegexPattern { unit: unit@ },
            Error::InvalidRegexPattern { unit, regex } => ErrorView::InvalidRegexPattern {
                unit: unit@,
                regex: regex@,
            },
            Error::RegexNotEvaluable { property_name, unit, regex, value, reason } =>
                ErrorView::RegexNotEvaluable {
                property_name: property_name@,
                unit: unit@,
                regex: regex@,
                value: value@,
                reason: reason@,
            },
            Error::UnitNotProvided { property_name } => ErrorView::UnitNotProvided {
                property_name: property_name@,
            },
            Error::UnitSettingNotFound { property_name, unit } => ErrorView::UnitSettingNotFound {
                property_name: property_name@,
                unit: unit@,
            },
        }
    }
}

/// An owned copy of a text.
pub fn owned(s: &str) -> (r: String)
    ensures
        r@ == s@,
{
    s.to_string()
}

/// A copy of a list of texts.
pub fn copy_strings(v: &Vec<String>) -> (r: Vec<String>)
    ensures
        strings_view(r@) == strings_view(v@),
{
    let mut r: Vec<String> = Vec::new();
    let mut i: usize = 0;
    while i < v.len()
        invariant
            i <= v.len(),
            r@.len() == i,
            forall|j: int| 0 <= j < i ==> #[trigger] r@[j]@ == v@[j]@,
        decreases v.len() - i,
    {
        r.push(v[i].clone());
        i = i + 1;
    }
    assert(strings_view(r@) =~= strings_view(v@));
    r
}

} // verus!
