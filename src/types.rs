//! The data model of a product configuration.
use semver::Version as SemVer;
use std::cmp::Ordering;
use vstd::prelude::*;

verus! {

/// Major, minor, patch, pre-release and build metadata of a semantic version.
pub type VersionParts = (u64, u64, u64, Seq<char>, Seq<char>);

#[verifier::external_type_specification]
#[verifier::external_body]
pub struct ExSemverVersion(SemVer);

#[verifier::external_type_specification]
#[verifier::external_body]
pub struct ExFancyRegex(fancy_regex::Regex);

/// Lets the derived `Clone` of the library's types copy a `semver::Version`; nothing is
/// claimed of the copy.
pub assume_specification[ <SemVer as Clone>::clone ](v: &SemVer) -> SemVer;

/// Lets the derived `Clone` of the library's types copy a `fancy_regex::Regex`; nothing is
/// claimed of the copy.
pub assume_specification[ <fancy_regex::Regex as Clone>::clone ](r: &fancy_regex::Regex) -> fancy_regex::Regex;

/// How semver orders two pre-release identifier lists.
pub uninterp spec fn prerelease_order(a: Seq<char>, b: Seq<char>) -> Ordering;

/// How semver orders two build metadata identifier lists.
pub uninterp spec fn build_metadata_order(a: Seq<char>, b: Seq<char>) -> Ordering;

/// What semver's parser makes of a text: the parts of the version, or the error message.
pub uninterp spec fn semver_parse_result(text: Seq<char>) -> Result<VersionParts, Seq<char>>;

/// How semver displays a version: `major.minor.patch`, then `-` and the pre-release where
/// there is one, then `+` and the build metadata where there is some.
pub open spec fn semver_display(v: VersionParts) -> Seq<char> {
    crate::validation::int_text(v.0 as int) + seq!['.'] + crate::validation::int_text(v.1 as int) + seq!['.']
        + crate::validation::int_text(v.2 as int) + (if v.3.len() > 0 {
        seq!['-'] + v.3
    } else {
        Seq::empty()
    }) + (if v.4.len() > 0 {
        seq!['+'] + v.4
    } else {
        Seq::empty()
    })
}

/// Whether fancy_regex compiles a pattern, or its error message.
pub uninterp spec fn fancy_regex_compile_result(pattern: Seq<char>) -> Result<(), Seq<char>>;

/// What fancy_regex reports for a pattern searched in a text: a match or not, or the
/// message of an evaluation failure.
pub uninterp spec fn fancy_regex_match_result(pattern: Seq<char>, text: Seq<char>) -> Result<bool, Seq<char>>;

pub open spec fn compare_u64(a: u64, b: u64) -> Ordering {
    if a < b {
        Ordering::Less
    } else if a == b {
        Ordering::Equal
    } else {
        Ordering::Greater
    }
}

/// The order of semantic versions: major, minor and patch by number, then the
/// pre-release, then the build metadata.
pub open spec fn version_order(a: VersionParts, b: VersionParts) -> Ordering {
    if a.0 != b.0 {
        compare_u64(a.0, b.0)
    } else if a.1 != b.1 {
        compare_u64(a.1, b.1)
    } else if a.2 != b.2 {
        compare_u64(a.2, b.2)
    } else if prerelease_order(a.3, b.3) != Ordering::Equal {
        prerelease_order(a.3, b.3)
    } else {
        build_metadata_order(a.4, b.4)
    }
}

pub open spec fn version_le(a: VersionParts, b: VersionParts) -> bool {
    version_order(a, b) != Ordering::Greater
}

/// A semantic version, as the product configuration compares them.
#[derive(Clone, Debug, PartialEq, PartialOrd)]
pub struct StackableVersion {
    version: SemVer,
    major: u64,
    minor: u64,
    patch: u64,
    pre: String,
    build: String,
}

impl View for StackableVersion {
    type V = VersionParts;

    closed spec fn view(&self) -> VersionParts {
        (self.major, self.minor, self.patch, self.pre@, self.build@)
    }
}

/// Relies on `semver::Version::parse`; the parts are read from the parsed version.
#[verifier::external_body]
fn semver_parse(text: &str) -> (r: Result<StackableVersion, String>)
    ensures
        match r {
            Ok(v) => semver_parse_result(text@) == Ok::<VersionParts, Seq<char>>(v@),
            Err(e) => semver_parse_result(text@) == Err::<VersionParts, Seq<char>>(e@),
        },
{
    match SemVer::parse(text) {
        Ok(v) => Ok(StackableVersion {
            major: v.major,
            minor: v.minor,
            patch: v.patch,
            pre: v.pre.as_str().to_string(),
            build: v.build.as_str().to_string(),
            version: v,
        }),
        Err(e) => Err(e.to_string()),
    }
}

/// Relies on the `Ord` that semver derives for `Version` (field by field).
#[verifier::external_body]
fn semver_cmp(a: &StackableVersion, b: &StackableVersion) -> (r: Ordering)
    ensures
        r == version_order(a@, b@),
        a@.0 == b@.0 && a@.1 == b@.1 && a@.2 == b@.2 ==> r == match prerelease_order(a@.3, b@.3) {
            Ordering::Equal => build_metadata_order(a@.4, b@.4),
            o => o,
        },
{
    a.version.cmp(&b.version)
}

/// Relies on semver's `Display` for `Version` (without width or alignment, as `to_string`
/// uses it).
#[verifier::external_body]
fn semver_to_string(v: &StackableVersion) -> (r: String)
    ensures
        r@ == semver_display(v@),
{
    v.version.to_string()
}

impl StackableVersion {
    /// Parses a semantic version; the error carries the text and semver's reason.
    pub fn parse(version: &str) -> (r: Result<StackableVersion, crate::error::Error>)
        ensures
            match semver_parse_result(version@) {
                Ok(parts) => r matches Ok(v) && v@ == parts,
                Err(reason) => r matches Err(e) && e@ == crate::error::ErrorView::InvalidVersion {
                    reason,
                    version: version@,
                },
            },
    {
        match semver_parse(version) {
            Ok(v) => Ok(v),
            Err(reason) => Err(
                crate::error::Error::InvalidVersion { reason, version: crate::error::owned(version) },
            ),
        }
    }

    /// Compares two versions in semver order.
    pub fn compare(&self, other: &StackableVersion) -> (r: Ordering)
        ensures
            r == version_order(self@, other@),
    {
        semver_cmp(self, other)
    }

    /// Whether `self <= other` in semver order.
    pub fn le(&self, other: &StackableVersion) -> (r: bool)
        ensures
            r == version_le(self@, other@),
    {
        match semver_cmp(self, other) {
            Ordering::Greater => false,
            _ => true,
        }
    }

    /// A copy of the version.
    pub fn duplicate(&self) -> (r: StackableVersion)
        ensures
            r@ == self@,
    {
        StackableVersion {
            version: self.version.clone(),
            major: self.major,
            minor: self.minor,
            patch: self.patch,
            pre: self.pre.clone(),
            build: self.build.clone(),
        }
    }

    /// The version as semver writes it.
    pub fn to_string(&self) -> (r: String)
        ensures
            r@ == semver_display(self@),
    {
        semver_to_string(self)
    }
}

/// A unit pattern together with its compiled form.
#[derive(Clone, Debug)]
pub struct StackableRegex {
    expression: String,
    compiled: fancy_regex::Regex,
}

impl View for StackableRegex {
    type V = Seq<char>;

    /// The pattern.
    closed spec fn view(&self) -> Seq<char> {
        self.expression@
    }
}

/// Relies on `fancy_regex::Regex::new`: the pattern compiles, or the error message.
#[verifier::external_body]
fn fancy_regex_new(expression: &str) -> (r: Result<StackableRegex, String>)
    ensures
        match r {
            Ok(re) => re@ == expression@ && fancy_regex_compile_result(expression@)
                == Ok::<(), Seq<char>>(()),
            Err(e) => fancy_regex_compile_result(expression@) == Err::<(), Seq<char>>(e@),
        },
{
    match fancy_regex::Regex::new(expression) {
        Ok(compiled) => Ok(StackableRegex { expression: expression.to_string(), compiled }),
        Err(e) => Err(e.to_string()),
    }
}

/// Relies on `fancy_regex::Regex::is_match` of the pattern compiled from `expression`.
#[verifier::external_body]
fn fancy_regex_is_match(re: &StackableRegex, text: &str) -> (r: Result<bool, String>)
    ensures
        match r {
            Ok(b) => fancy_regex_match_result(re@, text@) == Ok::<bool, Seq<char>>(b),
            Err(e) => fancy_regex_match_result(re@, text@) == Err::<bool, Seq<char>>(e@),
        },
{
    match re.compiled.is_match(text) {
        Ok(b) => Ok(b),
        Err(e) => Err(e.to_string()),
    }
}

impl StackableRegex {
    /// Compiles a unit pattern.
    pub fn new(expression: &str) -> (r: Result<StackableRegex, String>)
        ensures
            match r {
                Ok(re) => re@ == expression@ && fancy_regex_compile_result(expression@)
                    == Ok::<(), Seq<char>>(()),
                Err(e) => fancy_regex_compile_result(expression@) == Err::<(), Seq<char>>(e@),
            },
    {
        fancy_regex_new(expression)
    }

    /// The pattern.
    pub fn as_str(&self) -> (r: &str)
        ensures
            r@ == self@,
    {
        self.expression.as_str()
    }

    /// Searches the pattern in `text`.
    pub fn is_match(&self, text: &str) -> (r: Result<bool, String>)
        ensures
            match r {
                Ok(b) => fancy_regex_match_result(self@, text@) == Ok::<bool, Seq<char>>(
                    b,
                ),
                Err(e) => fancy_regex_match_result(self@, text@) == Err::<
                    bool,
                    Seq<char>,
                >(e@),
            },
    {
        fancy_regex_is_match(self, text)
    }
}

/// Relies on `str`'s `==`: two texts are equal when their characters are.
#[verifier::external_body]
pub(crate) fn str_eq(a: &str, b: &str) -> (r: bool)
    ensures
        r == (a@ == b@),
{
    a == b
}

/// The mathematical value of a [`PropertyNameKind`].
pub enum KindView {
    File(Seq<char>),
    Env,
    Cli,
}

/// Represents different config identifier types like config file, environment variable,
/// command line parameter etc.
#[derive(Clone, Debug, Hash, PartialOrd)]
pub enum PropertyNameKind {
    File(String),
    Env,
    Cli,
}

impl View for PropertyNameKind {
    type V = KindView;

    open spec fn view(&self) -> KindView {
        match self {
            PropertyNameKind::File(f) => KindView::File(f@),
            PropertyNameKind::Env => KindView::Env,
            PropertyNameKind::Cli => KindView::Cli,
        }
    }
}

impl PartialEq for PropertyNameKind {
    fn eq(&self, other: &PropertyNameKind) -> (r: bool) {
        match (self, other) {
            (PropertyNameKind::File(a), PropertyNameKind::File(b)) => str_eq(a.as_str(), b.as_str()),
            (PropertyNameKind::Env, PropertyNameKind::Env) => true,
            (PropertyNameKind::Cli, PropertyNameKind::Cli) => true,
            _ => false,
        }
    }
}

impl vstd::std_specs::cmp::PartialEqSpecImpl for PropertyNameKind {
    open spec fn obeys_eq_spec() -> bool {
        true
    }

    open spec fn eq_spec(&self, other: &PropertyNameKind) -> bool {
        self@ == other@
    }
}

impl Eq for PropertyNameKind {

}

impl PropertyNameKind {
    /// A copy of the kind.
    pub fn duplicate(&self) -> (r: PropertyNameKind)
        ensures
            r@ == self@,
    {
        match self {
            PropertyNameKind::File(name) => PropertyNameKind::File(name.clone()),
            PropertyNameKind::Env => PropertyNameKind::Env,
            PropertyNameKind::Cli => PropertyNameKind::Cli,
        }
    }

    /// The file name of a `File` kind, and the empty text for the others.
    pub fn get_file_name(&self) -> (r: String)
        ensures
            r@ == match self@ {
                KindView::File(name) => name,
                _ => Seq::<char>::empty(),
            },
    {
        match self {
            PropertyNameKind::File(name) => name.clone(),
            _ => String::new(),
        }
    }
}

/// A name and its kind.
pub type PropertyNameView = (Seq<char>, KindView);

/// Represents (one of multiple) unique identifier for a property name depending on the type.
#[derive(Clone, Debug, PartialEq, PartialOrd)]
pub struct PropertyName {
    pub name: String,
    pub kind: PropertyNameKind,
}

impl View for PropertyName {
    type V = PropertyNameView;

    open spec fn view(&self) -> PropertyNameView {
        (self.name@, self.kind@)
    }
}

impl PropertyName {
    /// A copy of the name.
    pub fn duplicate(&self) -> (r: PropertyName)
        ensures
            r@ == self@,
    {
        PropertyName { name: self.name.clone(), kind: self.kind.duplicate() }
    }
}

/// Represents a role in the cluster, e.g. server or client, and whether the property is
/// required or must not be copied to the output for it.
#[derive(Clone, Debug, PartialEq, PartialOrd)]
pub struct Role {
    pub name: String,
    pub required: bool,
    pub no_copy: Option<bool>,
}

/// A default or recommended value with its version window.
pub type PropertyValueView = (Option<VersionParts>, Option<VersionParts>, Seq<char>);

pub open spec fn opt_version_view(v: Option<StackableVersion>) -> Option<VersionParts> {
    match v {
        Some(x) => Some(x@),
        None => None,
    }
}

pub open spec fn opt_str_view(v: Option<String>) -> Option<Seq<char>> {
    match v {
        Some(x) => Some(x@),
        None => None,
    }
}

/// Represents the default or recommended values a property may have: since default values
/// may change with different releases, optional from and to versions can be provided.
#[derive(Clone, Debug, PartialEq, PartialOrd)]
pub struct PropertyValueSpec {
    pub from_version: Option<StackableVersion>,
    pub to_version: Option<StackableVersion>,
    pub value: String,
}

impl View for PropertyValueSpec {
    type V = PropertyValueView;

    open spec fn view(&self) -> PropertyValueView {
        (opt_version_view(self.from_version), opt_version_view(self.to_version), self.value@)
    }
}

fn duplicate_version(v: &Option<StackableVersion>) -> (r: Option<StackableVersion>)
    ensures
        opt_version_view(r) == opt_version_view(*v),
{
    match v {
        Some(x) => Some(x.duplicate()),
        None => None,
    }
}

impl PropertyValueSpec {
    /// A copy of the entry.
    pub fn duplicate(&self) -> (r: PropertyValueSpec)
        ensures
            r@ == self@,
    {
        PropertyValueSpec {
            from_version: duplicate_version(&self.from_version),
            to_version: duplicate_version(&self.to_version),
            value: self.value.clone(),
        }
    }
}

/// Whether a value entry applies to a product version: its window, where given, holds
/// the version.
pub open spec fn value_applies(e: PropertyValueView, version: VersionParts) -> bool {
    &&& match e.0 {
        Some(from) => version_le(from, version),
        None => true,
    }
    &&& match e.1 {
        Some(to) => version_order(to, version) != Ordering::Less,
        None => true,
    }
}

/// The value of the first entry from index `i` on that applies to `version`.
pub open spec fn select_value_from(values: Seq<PropertyValueView>, version: VersionParts, i: int) -> Option<Seq<char>>
    decreases values.len() - i,
{
    if i < 0 || i >= values.len() {
        None
    } else if value_applies(values[i], version) {
        Some(values[i].2)
    } else {
        select_value_from(values, version, i + 1)
    }
}

/// The value of the first entry that applies to `version`.
pub open spec fn select_value(values: Seq<PropertyValueView>, version: VersionParts) -> Option<Seq<char>> {
    select_value_from(values, version, 0)
}

/// The represented unit (its name corresponds to a unit type like password) and its regex.
#[derive(Clone, Debug)]
pub struct Unit {
    pub name: String,
    pub regex: StackableRegex,
    pub examples: Option<Vec<String>>,
    pub comment: Option<String>,
}

impl Unit {
    /// A unit with a name and a pattern that compiles. A unit without a name, or else
    /// without a pattern, or else whose pattern does not compile, is refused.
    pub fn new(name: &str, regex: &str, examples: Option<Vec<String>>, comment: Option<String>) -> (r: Result<Unit, crate::error::Error>)
        ensures
            if name@.len() == 0 {
                r matches Err(e) && e@ == (crate::error::ErrorView::ConfigSpecPropertiesNotFound { name: "unit"@ })
            } else if regex@.len() == 0 {
                r matches Err(e) && e@ == (crate::error::ErrorView::EmptyRegexPattern { unit: name@ })
            } else {
                match fancy_regex_compile_result(regex@) {
                    Ok(_) => r matches Ok(u) && u.name@ == name@ && u.regex@ == regex@ && u.examples == examples
                        && u.comment == comment,
                    Err(_) => r matches Err(e) && e@ == (crate::error::ErrorView::InvalidRegexPattern {
                        unit: name@,
                        regex: regex@,
                    }),
                }
            },
    {
        if name.is_empty() {
            return Err(crate::error::Error::ConfigSpecPropertiesNotFound { name: crate::error::owned("unit") });
        }
        if regex.is_empty() {
            return Err(crate::error::Error::EmptyRegexPattern { unit: crate::error::owned(name) });
        }
        match StackableRegex::new(regex) {
            Ok(compiled) => Ok(Unit { name: crate::error::owned(name), regex: compiled, examples, comment }),
            Err(_) => Err(
                crate::error::Error::InvalidRegexPattern {
                    unit: crate::error::owned(name),
                    regex: crate::error::owned(regex),
                },
            ),
        }
    }
}

/// Represents all supported data types.
#[derive(Clone, Debug)]
pub enum Datatype {
    Bool,
    Integer {
        min: Option<String>,
        max: Option<String>,
        unit: Option<Unit>,
        accepted_units: Option<Vec<String>>,
        default_unit: Option<String>,
    },
    Float {
        min: Option<String>,
        max: Option<String>,
        unit: Option<Unit>,
        accepted_units: Option<Vec<String>>,
        default_unit: Option<String>,
    },
    String {
        min: Option<String>,
        max: Option<String>,
        unit: Option<Unit>,
        accepted_units: Option<Vec<String>>,
        default_unit: Option<String>,
    },
    Array { unit: Option<Unit>, accepted_units: Option<Vec<String>>, default_unit: Option<String> },
}

/// Represents an expansion into another property and (if available) the value it requires,
/// e.g. to set ssl certificates one has to set some property use_ssl to true.
#[derive(Debug)]
pub struct PropertyExpansion {
    pub property: PropertySpec,
    pub value: Option<String>,
}

/// Represents one property spec entry.
#[derive(Debug)]
pub struct PropertySpec {
    pub property_names: Vec<PropertyName>,
    pub datatype: Datatype,
    pub roles: Vec<Role>,
    pub as_of_version: StackableVersion,
    pub default_values: Option<Vec<PropertyValueSpec>>,
    pub recommended_values: Option<Vec<PropertyValueSpec>>,
    pub allowed_values: Option<Vec<String>>,
    pub deprecated_since: Option<StackableVersion>,
    pub deprecated_for: Option<Vec<String>>,
    pub expands_to: Option<Vec<PropertyExpansion>>,
    pub restart_required: Option<bool>,
    pub tags: Option<Vec<String>>,
    pub additional_doc: Option<Vec<String>>,
    pub comment: Option<String>,
    pub description: Option<String>,
}

pub open spec fn value_list_view(v: Option<Vec<PropertyValueSpec>>) -> Option<Seq<PropertyValueView>> {
    match v {
        Some(l) => Some(l@.map_values(|e: PropertyValueSpec| e@)),
        None => None,
    }
}

/// The name under `kind` of the first of `names` from index `i` on that has that kind.
pub open spec fn name_of_kind_from(names: Seq<PropertyName>, kind: KindView, i: int) -> Option<Seq<char>>
    decreases names.len() - i,
{
    if i < 0 || i >= names.len() {
        None
    } else if names[i].kind@ == kind {
        Some(names[i].name@)
    } else {
        name_of_kind_from(names, kind, i + 1)
    }
}

impl PropertySpec {
    /// The property's name under `kind`: the first of its names with that kind.
    pub open spec fn name_for_kind(&self, kind: KindView) -> Option<Seq<char>> {
        name_of_kind_from(self.property_names@, kind, 0)
    }

    /// Whether the property lists `role`.
    pub open spec fn spec_has_role(&self, role: Seq<char>) -> bool {
        exists|i: int| 0 <= i < self.roles@.len() && #[trigger] self.roles@[i].name@ == role
    }

    /// Whether the property is required for `role`.
    pub open spec fn spec_has_role_required(&self, role: Seq<char>) -> bool {
        exists|i: int|
            0 <= i < self.roles@.len() && #[trigger] self.roles@[i].name@ == role
                && self.roles@[i].required
    }

    /// Whether the property must not be copied to the output for `role`.
    pub open spec fn spec_has_role_no_copy(&self, role: Seq<char>) -> bool {
        exists|i: int|
            0 <= i < self.roles@.len() && #[trigger] self.roles@[i].name@ == role
                && self.roles@[i].no_copy == Some(true)
    }

    /// Whether the property exists in `version`: it is there as of a version not after it.
    pub open spec fn spec_supported(&self, version: VersionParts) -> bool {
        version_le(self.as_of_version@, version)
    }

    /// Whether the property is deprecated in `version`.
    pub open spec fn spec_deprecated(&self, version: VersionParts) -> bool {
        match self.deprecated_since {
            Some(since) => version_le(since@, version),
            None => false,
        }
    }

    /// The value that a list of entries, where given, selects for `version`.
    pub open spec fn spec_list_value(list: Option<Vec<PropertyValueSpec>>, version: VersionParts) -> Option<Seq<char>> {
        match value_list_view(list) {
            Some(l) => select_value(l, version),
            None => None,
        }
    }

    /// The recommended value for `version` where one applies, or else the default value
    /// for `version` where one applies.
    pub open spec fn spec_preferred_value(&self, version: VersionParts) -> Option<Seq<char>> {
        match Self::spec_list_value(self.recommended_values, version) {
            Some(v) => Some(v),
            None => Self::spec_list_value(self.default_values, version),
        }
    }

    /// The recommended (or else default) value together with the name under `kind`.
    pub open spec fn spec_recommended_or_default(&self, version: VersionParts, kind: KindView) -> Option<(Seq<char>, Option<Seq<char>>)> {
        match self.name_for_kind(kind) {
            Some(name) => Some((name, self.spec_preferred_value(version))),
            None => None,
        }
    }

    /// Extract the (preferred) recommended or default value from the property that matches
    /// the provided version, together with the property's name under `kind`.
    pub fn recommended_or_default(&self, version: &StackableVersion, kind: &PropertyNameKind) -> (r: Option<(String, Option<String>)>)
        ensures
            match r {
                Some((n, v)) => self.spec_recommended_or_default(version@, kind@) == Some(
                    (n@, opt_str_view(v)),
                ),
                None => self.spec_recommended_or_default(version@, kind@) is None,
            },
    {
        match self.name_from_kind(kind) {
            Some(name) => {
                let recommended = match &self.recommended_values {
                    Some(recommended) => self.filter_value(version, recommended.as_slice()),
                    None => None,
                };
                let val = match recommended {
                    Some(v) => Some(v),
                    None => match &self.default_values {
                        Some(default) => self.filter_value(version, default.as_slice()),
                        None => None,
                    },
                };
                Some((name, val))
            },
            None => None,
        }
    }

    /// The value of the first entry of `values` whose version window holds `version`.
    pub fn filter_value(&self, version: &StackableVersion, values: &[PropertyValueSpec]) -> (r: Option<String>)
        ensures
            opt_str_view(r) == select_value(values@.map_values(|e: PropertyValueSpec| e@), version@),
    {
        let ghost vs = values@.map_values(|e: PropertyValueSpec| e@);
        let mut i: usize = 0;
        while i < values.len()
            invariant
                i <= values@.len(),
                vs == values@.map_values(|e: PropertyValueSpec| e@),
                select_value(vs, version@) == select_value_from(vs, version@, i as int),
            decreases values.len() - i,
        {
            let value = &values[i];
            let from_ok = match &value.from_version {
                Some(from) => from.le(version),
                None => true,
            };
            let to_ok = match &value.to_version {
                Some(to) => match to.compare(version) {
                    Ordering::Less => false,
                    _ => true,
                },
                None => true,
            };
            assert(vs[i as int] == values@[i as int]@);
            if from_ok && to_ok {
                return Some(value.value.clone());
            }
            i = i + 1;
        }
        None
    }

    /// Returns the property name by matching the provided kind. There should be only one
    /// reference to CLI and ENV, as well as multiple references to FILE(s) with different names.
    pub fn name_from_kind(&self, kind: &PropertyNameKind) -> (r: Option<String>)
        ensures
            opt_str_view(r) == self.name_for_kind(kind@),
    {
        let mut i: usize = 0;
        while i < self.property_names.len()
            invariant
                i <= self.property_names@.len(),
                self.name_for_kind(kind@) == name_of_kind_from(self.property_names@, kind@, i as int),
            decreases self.property_names.len() - i,
        {
            if self.property_names[i].kind == *kind {
                return Some(self.property_names[i].name.clone());
            }
            i = i + 1;
        }
        None
    }

    /// Returns true if the role matches and no_copy is set to true.
    pub fn has_role_no_copy(&self, user_role: &str) -> (r: bool)
        ensures
            r == self.spec_has_role_no_copy(user_role@),
    {
        let mut i: usize = 0;
        while i < self.roles.len()
            invariant
                i <= self.roles@.len(),
                forall|j: int|
                    0 <= j < i ==> !(#[trigger] self.roles@[j].name@ == user_role@
                        && self.roles@[j].no_copy == Some(true)),
            decreases self.roles.len() - i,
        {
            let role = &self.roles[i];
            if str_eq(role.name.as_str(), user_role) && role.no_copy == Some(true) {
                return true;
            }
            i = i + 1;
        }
        false
    }

    /// Returns true if the role matches and is required.
    pub fn has_role_required(&self, user_role: &str) -> (r: bool)
        ensures
            r == self.spec_has_role_required(user_role@),
    {
        let mut i: usize = 0;
        while i < self.roles.len()
            invariant
                i <= self.roles@.len(),
                forall|j: int|
                    0 <= j < i ==> !(#[trigger] self.roles@[j].name@ == user_role@
                        && self.roles@[j].required),
            decreases self.roles.len() - i,
        {
            let role = &self.roles[i];
            if str_eq(role.name.as_str(), user_role) && role.required {
                return true;
            }
            i = i + 1;
        }
        false
    }

    /// Returns true if the role matches.
    pub fn has_role(&self, user_role: &str) -> (r: bool)
        ensures
            r == self.spec_has_role(user_role@),
    {
        let mut i: usize = 0;
        while i < self.roles.len()
            invariant
                i <= self.roles@.len(),
                forall|j: int| 0 <= j < i ==> #[trigger] self.roles@[j].name@ != user_role@,
            decreases self.roles.len() - i,
        {
            if str_eq(self.roles[i].name.as_str(), user_role) {
                return true;
            }
            i = i + 1;
        }
        false
    }

    /// Returns true if the product version is greater or equal the as_of_version of the property.
    pub fn is_version_supported(&self, product_version: &StackableVersion) -> (r: Result<bool, crate::error::Error>)
        ensures
            r matches Ok(b) && b == self.spec_supported(product_version@),
    {
        Ok(self.as_of_version.le(product_version))
    }

    /// Returns true if the product version is greater or equal the deprecated_since of the property.
    pub fn is_version_deprecated(&self, product_version: &StackableVersion) -> (r: Result<bool, crate::error::Error>)
        ensures
            r matches Ok(b) && b == self.spec_deprecated(product_version@),
    {
        match &self.deprecated_since {
            Some(since) => Ok(since.le(product_version)),
            None => Ok(false),
        }
    }

    /// Returns all known property names, whatever their kind.
    pub fn all_property_names(&self) -> (r: Vec<String>)
        ensures
            r@.len() == self.property_names@.len(),
            forall|i: int| 0 <= i < r@.len() ==> #[trigger] r@[i]@ == self.property_names@[i].name@,
    {
        let mut r: Vec<String> = Vec::new();
        let mut i: usize = 0;
        while i < self.property_names.len()
            invariant
                i <= self.property_names@.len(),
                r@.len() == i,
                forall|j: int| 0 <= j < i ==> #[trigger] r@[j]@ == self.property_names@[j].name@,
            decreases self.property_names.len() - i,
        {
            r.push(self.property_names[i].name.clone());
            i = i + 1;
        }
        r
    }
}

/// A property of the configuration.
#[derive(Debug)]
pub struct PropertyAnchor {
    pub property: PropertySpec,
}

/// A unit of the configuration.
#[derive(Clone, Debug)]
pub struct UnitAnchor {
    pub unit: Unit,
}

/// The settings shared by all properties: the units.
#[derive(Clone, Debug)]
pub struct Spec {
    pub units: Vec<UnitAnchor>,
}

/// A whole product configuration.
#[derive(Debug)]
pub struct ProductConfig {
    pub version: String,
    pub spec: Spec,
    pub properties: Vec<PropertyAnchor>,
}

} // verus!
