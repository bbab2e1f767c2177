//! Product configuration schema validation.
//!
//! A product configuration declares properties (under environment, command-line and
//! config-file names), their datatypes, bounds, units, version windows, roles and
//! expansions. The engine in this crate merges user supplied values with the values the
//! configuration derives, and classifies every resulting value.
use vstd::prelude::*;

pub mod check;
pub mod error;
pub mod flask_app_config_writer;
pub mod laws;
pub mod reader;
pub mod types;
pub mod util;
pub mod validation;
pub mod version;
pub mod warning;
pub mod writer;

use crate::error::{owned, Error, ErrorView};
use crate::types::{
    opt_str_view, select_value, semver_display, semver_parse_result, value_list_view, KindView,
    ProductConfig, PropertyAnchor, PropertyNameKind, PropertySpec, StackableVersion, VersionParts,
};
use crate::util::{
    contains_any_key, expand_into, expand_spec, insert_entry, models, overlay, overlay_entries,
    PropertyMap,
};
use crate::validation::{
    allowed_verdict, check_allowed_values, check_datatype, datatype_verdict, FloatCheck,
    ValidationResult,
};

verus! {

broadcast use vstd::string::group_string_axioms;

/// The mathematical value of a [`PropertyValidationResult`].
pub enum OutcomeView {
    Default(Seq<char>),
    RecommendedDefault(Seq<char>),
    Valid(Seq<char>),
    Unknown(Seq<char>),
    Warn(Seq<char>, ErrorView),
    Error(Seq<char>, ErrorView),
}

/// This will be returned for every validated configuration value (including user values
/// and automatically added values from e.g. dependency, recommended etc.).
///
/// The variants are ordered as declared: `Default < RecommendedDefault < Valid < Unknown <
/// Warn < Error`.
#[derive(Clone, Debug, PartialEq, PartialOrd)]
pub enum PropertyValidationResult {
    /// The value equals the default value for the version.
    Default(String),
    /// The value equals the recommended value for the version.
    RecommendedDefault(String),
    /// The value passed all checks and can be used.
    Valid(String),
    /// The name is not a property of the configuration, so no checks could be applied.
    Unknown(String),
    /// The value may be used with caution.
    Warn(String, Error),
    /// The value (or its absence) is not acceptable.
    Error(String, Error),
}

impl View for PropertyValidationResult {
    type V = OutcomeView;

    open spec fn view(&self) -> OutcomeView {
        match self {
            PropertyValidationResult::Default(v) => OutcomeView::Default(v@),
            PropertyValidationResult::RecommendedDefault(v) => OutcomeView::RecommendedDefault(v@),
            PropertyValidationResult::Valid(v) => OutcomeView::Valid(v@),
            PropertyValidationResult::Unknown(v) => OutcomeView::Unknown(v@),
            PropertyValidationResult::Warn(v, e) => OutcomeView::Warn(v@, e@),
            PropertyValidationResult::Error(v, e) => OutcomeView::Error(v@, e@),
        }
    }
}

/// The index of the first property from `i` on that has `name` under `kind`, lists `role`
/// and exists in `version`.
pub open spec fn find_from(props: Seq<PropertyAnchor>, name: Seq<char>, role: Seq<char>, kind: KindView, version: VersionParts, i: int) -> Option<int>
    decreases props.len() - i,
{
    if i < 0 || i >= props.len() {
        None
    } else if props[i].property.name_for_kind(kind) == Some(name) && props[i].property.spec_has_role(role)
        && props[i].property.spec_supported(version) {
        Some(i)
    } else {
        find_from(props, name, role, kind, version, i + 1)
    }
}

/// The property that `name` denotes under `kind`, `role` and `version`: the first one listed.
pub open spec fn find_spec(props: Seq<PropertyAnchor>, name: Seq<char>, role: Seq<char>, kind: KindView, version: VersionParts) -> Option<int> {
    find_from(props, name, role, kind, version, 0)
}

/// Whether the user supplied one of the property's names, of whatever kind.
pub open spec fn user_names_any(user: Seq<(String, Option<String>)>, p: PropertySpec) -> bool {
    exists|i: int, j: int|
        0 <= i < p.property_names@.len() && 0 <= j < user.len() && #[trigger] user[j].0@
            == #[trigger] p.property_names@[i].name@
}

/// What one property contributes to the merge: a property the user named (and that fits
/// role and version) brings its expansions; a property required for the role (and existing
/// in the version) brings its recommended or default value and its expansions.
pub open spec fn merge_step(acc: PropertyMap, p: PropertySpec, user: Seq<(String, Option<String>)>, version: VersionParts, role: Seq<char>, kind: KindView) -> PropertyMap {
    if user_names_any(user, p) && p.spec_has_role(role) && p.spec_supported(version) {
        expand_spec(acc, p, version, role, kind)
    } else if p.spec_has_role_required(role) && p.spec_supported(version) {
        let acc1 = match p.spec_recommended_or_default(version, kind) {
            Some((n, v)) => acc.insert(n, v),
            None => acc,
        };
        expand_spec(acc1, p, version, role, kind)
    } else {
        acc
    }
}

/// The contributions of the first `n` properties.
pub open spec fn merge_upto(props: Seq<PropertyAnchor>, user: Seq<(String, Option<String>)>, version: VersionParts, role: Seq<char>, kind: KindView, n: int) -> PropertyMap
    decreases n,
{
    if n <= 0 {
        Map::empty()
    } else {
        merge_step(merge_upto(props, user, version, role, kind, n - 1), props[n - 1].property, user, version, role, kind)
    }
}

/// Whether `name` denotes a property that must not be copied to the output for `role`.
pub open spec fn no_copy_name(props: Seq<PropertyAnchor>, name: Seq<char>, role: Seq<char>, kind: KindView, version: VersionParts) -> bool {
    match find_spec(props, name, role, kind, version) {
        Some(i) => props[i].property.spec_has_role_no_copy(role),
        None => false,
    }
}

/// `all` without the names of no-copy properties.
pub open spec fn without_no_copy(props: Seq<PropertyAnchor>, all: PropertyMap, role: Seq<char>, kind: KindView, version: VersionParts) -> PropertyMap {
    Map::new(
        |k: Seq<char>| all.contains_key(k) && !no_copy_name(props, k, role, kind, version),
        |k: Seq<char>| all[k],
    )
}

/// The merge: the contributions of all properties, the user's values written over them,
/// and the no-copy properties removed.
pub open spec fn merge_spec(props: Seq<PropertyAnchor>, user: Seq<(String, Option<String>)>, version: VersionParts, role: Seq<char>, kind: KindView) -> PropertyMap {
    without_no_copy(props, overlay(merge_upto(props, user, version, role, kind, props.len() as int), user), role, kind, version)
}

/// Whether the list of a property's recommended (or default) values selects `value` for
/// the version.
pub open spec fn selects(list: Option<Vec<crate::types::PropertyValueSpec>>, version: VersionParts, value: Seq<char>) -> bool {
    match value_list_view(list) {
        Some(l) => select_value(l, version) == Some(value),
        None => false,
    }
}

/// The classification of a present value of a known property, given the result `dt` of
/// its datatype check: datatype, allowed values, deprecation, then equality with the
/// recommended and the default value.
pub open spec fn found_outcome(p: PropertySpec, name: Seq<char>, value: Seq<char>, version: VersionParts, dt: Result<(), ErrorView>) -> OutcomeView {
    match dt {
        Err(e) => OutcomeView::Error(value, e),
        Ok(_) => match allowed_verdict(name, value, p.allowed_values) {
            Err(e) => OutcomeView::Error(value, e),
            Ok(_) => if p.spec_deprecated(version) {
                OutcomeView::Warn(
                    value,
                    ErrorView::VersionDeprecated {
                        property_name: name,
                        product_version: semver_display(version),
                        deprecated_version: semver_display(p.deprecated_since.unwrap()@),
                    },
                )
            } else if selects(p.recommended_values, version, value) {
                OutcomeView::RecommendedDefault(value)
            } else if selects(p.default_values, version, value) {
                OutcomeView::Default(value)
            } else {
                OutcomeView::Valid(value)
            },
        },
    }
}

/// The classification of a present value of a known property. The floating-point datatype
/// check is the caller's: where it fails, the outcome is an error carrying the value.
pub open spec fn value_outcome_ok(p: PropertySpec, name: Seq<char>, value: Seq<char>, version: VersionParts, o: OutcomeView) -> bool {
    match datatype_verdict(p.datatype, name, value) {
        Some(dt) => o == found_outcome(p, name, value, version, dt),
        None => o == found_outcome(p, name, value, version, Ok(())) || (o matches OutcomeView::Error(x, _) && x == value),
    }
}

/// Whether a merged entry produces an outcome: a present value always does; an absent one
/// only for a property required for the role.
pub open spec fn emits(props: Seq<PropertyAnchor>, name: Seq<char>, value: Option<Seq<char>>, version: VersionParts, role: Seq<char>, kind: KindView) -> bool {
    match find_spec(props, name, role, kind, version) {
        None => value is Some,
        Some(i) => value is Some || props[i].property.spec_has_role_required(role),
    }
}

/// The outcome `o` of the merged entry (`name`, `value`): unknown names pass their value
/// through; a known property without a value that is required is an error; a present value
/// is classified.
pub open spec fn outcome_ok(props: Seq<PropertyAnchor>, name: Seq<char>, value: Option<Seq<char>>, version: VersionParts, role: Seq<char>, kind: KindView, o: OutcomeView) -> bool {
    match find_spec(props, name, role, kind, version) {
        None => match value {
            Some(v) => o == OutcomeView::Unknown(v),
            None => false,
        },
        Some(i) => match value {
            None => props[i].property.spec_has_role_required(role) && o == OutcomeView::Error(
                name,
                ErrorView::PropertyValueMissing { property_name: name },
            ),
            Some(v) => value_outcome_ok(props[i].property, name, v, version, o),
        },
    }
}

/// `r` holds one outcome, each name once, for every entry of `merged` that produces one.
pub open spec fn validated(props: Seq<PropertyAnchor>, merged: PropertyMap, version: VersionParts, role: Seq<char>, kind: KindView, r: Seq<(String, PropertyValidationResult)>) -> bool {
    &&& forall|a: int, b: int|
        0 <= a < r.len() && 0 <= b < r.len() && a != b ==> #[trigger] r[a].0@ != #[trigger] r[b].0@
    &&& forall|a: int|
        0 <= a < r.len() ==> merged.contains_key(#[trigger] r[a].0@) && outcome_ok(
            props,
            r[a].0@,
            merged[r[a].0@],
            version,
            role,
            kind,
            r[a].1@,
        )
    &&& forall|k: Seq<char>|
        merged.contains_key(k) && emits(props, k, merged[k], version, role, kind) ==> exists|a: int|
            0 <= a < r.len() && #[trigger] r[a].0@ == k
}

/// The struct to interact with the product config. Performs validation and merging of user
/// defined properties and the properties of the product configuration.
pub struct ProductConfigManager {
    config: ProductConfig,
}

impl ProductConfigManager {
    /// The properties of the configuration.
    pub closed spec fn properties(&self) -> Seq<PropertyAnchor> {
        self.config.properties@
    }

    /// A manager for a configuration that passes the check before use: units have names
    /// and patterns; every property has a name and a role, its default and recommended
    /// values select a value for its first version and pass its checks, and its expansion
    /// targets are properties of the configuration. A configuration that fails the check is
    /// refused as a whole with its first fault. The floating-point literals are checked by
    /// `floats`.
    pub fn new<F: FloatCheck>(config: ProductConfig, floats: &F) -> (r: Result<ProductConfigManager, Error>)
        ensures
            r matches Ok(m) ==> crate::check::config_ok(config) && m.properties() == config.properties@,
            crate::check::units_error_from(config.spec.units@, 0) matches Some(e) ==> r matches Err(x) && x@ == e,
            !crate::check::has_float_property(config) ==> match crate::check::config_error(config) {
                Some(e) => r matches Err(x) && x@ == e,
                None => r is Ok,
            },
    {
        match crate::check::check_config(&config, floats) {
            Err(e) => Err(e),
            Ok(()) => Ok(ProductConfigManager { config }),
        }
    }

    /// Finds the property that `name` denotes under `kind`, `role` and `version`.
    fn find_property(&self, name: &str, role: &str, kind: &PropertyNameKind, version: &StackableVersion) -> (r: Option<usize>)
        ensures
            match r {
                Some(i) => i < self.properties().len() && find_spec(self.properties(), name@, role@, kind@, version@) == Some(i as int),
                None => find_spec(self.properties(), name@, role@, kind@, version@) is None,
            },
    {
        let mut i: usize = 0;
        while i < self.config.properties.len()
            invariant
                i <= self.config.properties@.len(),
                find_spec(self.properties(), name@, role@, kind@, version@) == find_from(
                    self.properties(),
                    name@,
                    role@,
                    kind@,
                    version@,
                    i as int,
                ),
            decreases self.config.properties.len() - i,
        {
            let property = &self.config.properties[i].property;
            let name_matches = match property.name_from_kind(kind) {
                Some(n) => crate::types::str_eq(n.as_str(), name),
                None => false,
            };
            if name_matches && property.has_role(role) && property.as_of_version.le(version) {
                return Some(i);
            }
            i = i + 1;
        }
        None
    }

    /// Removes the entries whose property must not be copied to the output for `role`.
    fn remove_no_copy_properties(&self, version: &StackableVersion, role: &str, kind: &PropertyNameKind, properties: &Vec<(String, Option<String>)>, Ghost(all): Ghost<PropertyMap>) -> (r: Vec<(String, Option<String>)>)
        requires
            models(properties@, all),
        ensures
            models(r@, without_no_copy(self.properties(), all, role@, kind@, version@)),
    {
        let ghost props = self.properties();
        let mut result: Vec<(String, Option<String>)> = Vec::new();
        let mut i: usize = 0;
        while i < properties.len()
            invariant
                i <= properties@.len(),
                models(properties@, all),
                props == self.properties(),
                models(
                    result@,
                    Map::new(
                        |k: Seq<char>|
                            (exists|j: int| 0 <= j < i && #[trigger] properties@[j].0@ == k) && all.contains_key(k)
                                && !no_copy_name(props, k, role@, kind@, version@),
                        |k: Seq<char>| all[k],
                    ),
                ),
            decreases properties.len() - i,
        {
            let ghost before = result@;
            let ghost m0 = Map::new(
                |k: Seq<char>|
                    (exists|j: int| 0 <= j < i && #[trigger] properties@[j].0@ == k) && all.contains_key(k)
                        && !no_copy_name(props, k, role@, kind@, version@),
                |k: Seq<char>| all[k],
            );
            let ghost m1 = Map::new(
                |k: Seq<char>|
                    (exists|j: int| 0 <= j < i + 1 && #[trigger] properties@[j].0@ == k) && all.contains_key(k)
                        && !no_copy_name(props, k, role@, kind@, version@),
                |k: Seq<char>| all[k],
            );
            let ghost key = properties@[i as int].0@;
            let name = &properties[i].0;
            let skip = match self.find_property(name.as_str(), role, kind, version) {
                Some(idx) => self.config.properties[idx].property.has_role_no_copy(role),
                None => false,
            };
            assert(skip == no_copy_name(props, key, role@, kind@, version@));
            if !skip {
                let value = match &properties[i].1 {
                    Some(v) => Some(v.clone()),
                    None => None,
                };
                result.push((name.clone(), value));
                assert(m1 =~= m0.insert(key, opt_str_view(properties@[i as int].1))) by {
                    assert(all.contains_key(key));
                    assert forall|k: Seq<char>| m1.contains_key(k) implies #[trigger] m0.insert(key, opt_str_view(properties@[i as int].1)).contains_key(k) by {
                        if k != key {
                            let j = choose|j: int| 0 <= j < i + 1 && #[trigger] properties@[j].0@ == k;
                            assert(j != i);
                        }
                    }
                    assert forall|k: Seq<char>| #[trigger] m0.insert(key, opt_str_view(properties@[i as int].1)).contains_key(k) implies m1.contains_key(k) by {
                        if k != key {
                            let j = choose|j: int| 0 <= j < i && #[trigger] properties@[j].0@ == k;
                            assert(0 <= j < i + 1 && properties@[j].0@ == k);
                        } else {
                            assert(0 <= i < i + 1 && properties@[i as int].0@ == k);
                        }
                    }
                }
                assert forall|a: int, b: int|
                    0 <= a < result@.len() && 0 <= b < result@.len() && a != b implies #[trigger] result@[a].0@
                    != #[trigger] result@[b].0@ by {
                    if a < before.len() && b < before.len() {
                        assert(before[a].0@ != before[b].0@);
                    } else if a < before.len() {
                        assert(m0.contains_key(before[a].0@));
                        let j = choose|j: int| 0 <= j < i && #[trigger] properties@[j].0@ == before[a].0@;
                        assert(properties@[j].0@ != properties@[i as int].0@);
                    } else if b < before.len() {
                        assert(m0.contains_key(before[b].0@));
                        let j = choose|j: int| 0 <= j < i && #[trigger] properties@[j].0@ == before[b].0@;
                        assert(properties@[j].0@ != properties@[i as int].0@);
                    }
                }
                assert forall|a: int| 0 <= a < result@.len() implies m1.contains_key(#[trigger] result@[a].0@)
                    && m1[result@[a].0@] == opt_str_view(result@[a].1) by {
                    if a < before.len() {
                        assert(before[a] == result@[a]);
                        assert(m0.contains_key(before[a].0@));
                    }
                }
                assert forall|k: Seq<char>| m1.contains_key(k) implies exists|a: int|
                    0 <= a < result@.len() && #[trigger] result@[a].0@ == k by {
                    if k == key {
                        assert(result@[before.len() as int].0@ == k);
                    } else {
                        assert(m0.contains_key(k));
                        let a = choose|a: int| 0 <= a < before.len() && #[trigger] before[a].0@ == k;
                        assert(result@[a] == before[a]);
                    }
                }
            } else {
                assert(m1 =~= m0) by {
                    assert forall|k: Seq<char>| m1.contains_key(k) implies m0.contains_key(k) by {
                        if k != key {
                            let j = choose|j: int| 0 <= j < i + 1 && #[trigger] properties@[j].0@ == k;
                            assert(j != i);
                        }
                    }
                    assert forall|k: Seq<char>| m0.contains_key(k) implies m1.contains_key(k) by {
                        let j = choose|j: int| 0 <= j < i && #[trigger] properties@[j].0@ == k;
                        assert(0 <= j < i + 1 && properties@[j].0@ == k);
                    }
                }
            }
            i = i + 1;
        }
        let ghost mfinal = Map::new(
            |k: Seq<char>|
                (exists|j: int| 0 <= j < i && #[trigger] properties@[j].0@ == k) && all.contains_key(k)
                    && !no_copy_name(props, k, role@, kind@, version@),
            |k: Seq<char>| all[k],
        );
        assert(mfinal =~= without_no_copy(props, all, role@, kind@, version@)) by {
            assert forall|k: Seq<char>| #[trigger] without_no_copy(props, all, role@, kind@, version@).contains_key(k) implies mfinal.contains_key(k) by {
                let j = choose|j: int| 0 <= j < properties@.len() && #[trigger] properties@[j].0@ == k;
                assert(0 <= j < i && properties@[j].0@ == k);
            }
        }
        result
    }

    /// Merges the user's values with the product configuration for the version, role and
    /// kind: user values first, then recommended values, then default values. Properties that
    /// the user names, or that are required for the role, bring the properties they expand to.
    /// The names of no-copy properties are left out.
    pub fn get_and_expand_properties(&self, version: &StackableVersion, role: &str, kind: &PropertyNameKind, user_config: &Vec<(String, Option<String>)>) -> (r: ValidationResult<Vec<(String, Option<String>)>>)
        ensures
            r matches Ok(v) && models(v@, merge_spec(self.properties(), user_config@, version@, role@, kind@)),
    {
        let ghost props = self.properties();
        let mut merged: Vec<(String, Option<String>)> = Vec::new();
        let mut i: usize = 0;
        while i < self.config.properties.len()
            invariant
                i <= self.config.properties@.len(),
                props == self.properties(),
                models(merged@, merge_upto(props, user_config@, version@, role@, kind@, i as int)),
            decreases self.config.properties.len() - i,
        {
            let ghost cur = merge_upto(props, user_config@, version@, role@, kind@, i as int);
            let property = &self.config.properties[i].property;
            let names = property.all_property_names();
            let named = contains_any_key(user_config, &names);
            assert(named == user_names_any(user_config@, *property)) by {
                if named {
                    let (a, b) = choose|a: int, b: int|
                        0 <= a < names@.len() && 0 <= b < user_config@.len() && #[trigger] user_config@[b].0@
                            == #[trigger] names@[a]@;
                    assert(user_config@[b].0@ == property.property_names@[a].name@);
                }
                if user_names_any(user_config@, *property) {
                    let (a, b) = choose|a: int, b: int|
                        0 <= a < property.property_names@.len() && 0 <= b < user_config@.len()
                            && #[trigger] user_config@[b].0@ == #[trigger] property.property_names@[a].name@;
                    assert(user_config@[b].0@ == names@[a]@);
                }
            }
            let supported = property.as_of_version.le(version);
            if named && property.has_role(role) && supported {
                expand_into(property, version, role, kind, &mut merged, Ghost(cur));
            } else if property.has_role_required(role) && supported {
                let ghost acc1 = match property.spec_recommended_or_default(version@, kind@) {
                    Some((n, v)) => cur.insert(n, v),
                    None => cur,
                };
                match property.recommended_or_default(version, kind) {
                    Some((name, value)) => {
                        insert_entry(&mut merged, name, value, Ghost(cur));
                    },
                    None => {},
                }
                expand_into(property, version, role, kind, &mut merged, Ghost(acc1));
            }
            i = i + 1;
        }
        let ghost before_user = merge_upto(props, user_config@, version@, role@, kind@, props.len() as int);
        overlay_entries(&mut merged, user_config, Ghost(before_user));
        let result = self.remove_no_copy_properties(version, role, kind, &merged, Ghost(overlay(before_user, user_config@)));
        Ok(result)
    }

    /// Classifies a present value of a known property.
    fn validate_value<F: FloatCheck>(&self, property: &PropertySpec, name: &str, value: &str, version: &StackableVersion, floats: &F) -> (r: PropertyValidationResult)
        ensures
            value_outcome_ok(*property, name@, value@, version@, r@),
    {
        match check_datatype(property, name, value, floats) {
            Err(e) => {
                return PropertyValidationResult::Error(owned(value), e);
            },
            Ok(()) => {},
        }
        match check_allowed_values(name, value, &property.allowed_values) {
            Err(e) => {
                return PropertyValidationResult::Error(owned(value), e);
            },
            Ok(()) => {},
        }
        match &property.deprecated_since {
            Some(since) => {
                if since.le(version) {
                    return PropertyValidationResult::Warn(
                        owned(value),
                        Error::VersionDeprecated {
                            property_name: owned(name),
                            product_version: version.to_string(),
                            deprecated_version: since.to_string(),
                        },
                    );
                }
            },
            None => {},
        }
        if let Some(recommended) = &property.recommended_values {
            let recommended_value = property.filter_value(version, recommended.as_slice());
            if let Some(rv) = recommended_value {
                if crate::types::str_eq(rv.as_str(), value) {
                    return PropertyValidationResult::RecommendedDefault(owned(value));
                }
            }
        }
        if let Some(default) = &property.default_values {
            let default_value = property.filter_value(version, default.as_slice());
            if let Some(dv) = default_value {
                if crate::types::str_eq(dv.as_str(), value) {
                    return PropertyValidationResult::Default(owned(value));
                }
            }
        }
        PropertyValidationResult::Valid(owned(value))
    }

    /// Validates the merged properties: syntax checks of the values, checks that required
    /// properties have a value, and comparison with the recommended and default values.
    /// Names that are not properties of the configuration are passed through as unknown.
    fn validate<F: FloatCheck>(&self, version: &StackableVersion, role: &str, kind: &PropertyNameKind, merged: &Vec<(String, Option<String>)>, Ghost(model): Ghost<PropertyMap>, floats: &F) -> (r: ValidationResult<Vec<(String, PropertyValidationResult)>>)
        requires
            models(merged@, model),
        ensures
            r matches Ok(res) && validated(self.properties(), model, version@, role@, kind@, res@),
    {
        let ghost props = self.properties();
        let mut result: Vec<(String, PropertyValidationResult)> = Vec::new();
        let mut i: usize = 0;
        while i < merged.len()
            invariant
                i <= merged@.len(),
                models(merged@, model),
                props == self.properties(),
                forall|a: int, b: int|
                    0 <= a < result@.len() && 0 <= b < result@.len() && a != b ==> #[trigger] result@[a].0@
                        != #[trigger] result@[b].0@,
                forall|a: int|
                    #![trigger result@[a]]
                    0 <= a < result@.len() ==> exists|j: int| 0 <= j < i && #[trigger] merged@[j].0@ == result@[a].0@,
                forall|a: int|
                    0 <= a < result@.len() ==> model.contains_key(#[trigger] result@[a].0@) && outcome_ok(
                        props,
                        result@[a].0@,
                        model[result@[a].0@],
                        version@,
                        role@,
                        kind@,
                        result@[a].1@,
                    ),
                forall|j: int|
                    0 <= j < i && emits(props, merged@[j].0@, model[merged@[j].0@], version@, role@, kind@) ==> exists|a: int|
                        0 <= a < result@.len() && #[trigger] result@[a].0@ == #[trigger] merged@[j].0@,
            decreases merged.len() - i,
        {
            let ghost before = result@;
            let ghost key = merged@[i as int].0@;
            let name = &merged[i].0;
            let value = &merged[i].1;
            assert(model[key] == opt_str_view(*value));
            let outcome: Option<PropertyValidationResult> = match self.find_property(name.as_str(), role, kind, version) {
                None => match value {
                    Some(v) => Some(PropertyValidationResult::Unknown(v.clone())),
                    None => None,
                },
                Some(idx) => {
                    let property = &self.config.properties[idx].property;
                    match value {
                        None => if property.has_role_required(role) {
                            Some(
                                PropertyValidationResult::Error(
                                    name.clone(),
                                    Error::PropertyValueMissing { property_name: name.clone() },
                                ),
                            )
                        } else {
                            None
                        },
                        Some(val) => Some(self.validate_value(property, name.as_str(), val.as_str(), version, floats)),
                    }
                },
            };
            match outcome {
                Some(o) => {
                    assert(outcome_ok(props, key, model[key], version@, role@, kind@, o@));
                    result.push((name.clone(), o));
                    assert forall|a: int, b: int|
                        0 <= a < result@.len() && 0 <= b < result@.len() && a != b implies #[trigger] result@[a].0@
                        != #[trigger] result@[b].0@ by {
                        if a < before.len() && b < before.len() {
                            assert(before[a].0@ != before[b].0@);
                        } else if a < before.len() {
                            let j = choose|j: int| 0 <= j < i && #[trigger] merged@[j].0@ == before[a].0@;
                            assert(merged@[j].0@ != merged@[i as int].0@);
                        } else if b < before.len() {
                            let j = choose|j: int| 0 <= j < i && #[trigger] merged@[j].0@ == before[b].0@;
                            assert(merged@[j].0@ != merged@[i as int].0@);
                        }
                    }
                    assert forall|a: int| #![trigger result@[a]] 0 <= a < result@.len() implies exists|j: int|
                        0 <= j < i + 1 && #[trigger] merged@[j].0@ == result@[a].0@ by {
                        if a < before.len() {
                            assert(before[a] == result@[a]);
                            let j = choose|j: int| 0 <= j < i && #[trigger] merged@[j].0@ == before[a].0@;
                            assert(0 <= j < i + 1 && merged@[j].0@ == result@[a].0@);
                        } else {
                            assert(merged@[i as int].0@ == result@[a].0@);
                        }
                    }
                    assert forall|a: int| 0 <= a < result@.len() implies model.contains_key(#[trigger] result@[a].0@)
                        && outcome_ok(props, result@[a].0@, model[result@[a].0@], version@, role@, kind@, result@[a].1@) by {
                        if a < before.len() {
                            assert(before[a] == result@[a]);
                        }
                    }
                    assert forall|j: int|
                        0 <= j < i + 1 && emits(props, merged@[j].0@, model[merged@[j].0@], version@, role@, kind@) implies exists|a: int|
                        0 <= a < result@.len() && #[trigger] result@[a].0@ == #[trigger] merged@[j].0@ by {
                        if j < i {
                            let a = choose|a: int| 0 <= a < before.len() && #[trigger] before[a].0@ == #[trigger] merged@[j].0@;
                            assert(result@[a] == before[a]);
                        } else {
                            assert(result@[before.len() as int].0@ == merged@[j].0@);
                        }
                    }
                },
                None => {
                    assert(!emits(props, key, model[key], version@, role@, kind@));
                    assert forall|a: int| #![trigger result@[a]] 0 <= a < result@.len() implies exists|j: int|
                        0 <= j < i + 1 && #[trigger] merged@[j].0@ == result@[a].0@ by {
                        let j = choose|j: int| 0 <= j < i && #[trigger] merged@[j].0@ == result@[a].0@;
                        assert(0 <= j < i + 1 && merged@[j].0@ == result@[a].0@);
                    }
                },
            }
            i = i + 1;
        }
        assert forall|k: Seq<char>|
            model.contains_key(k) && emits(props, k, model[k], version@, role@, kind@) implies exists|a: int|
            0 <= a < result@.len() && #[trigger] result@[a].0@ == k by {
            let j = choose|j: int| 0 <= j < merged@.len() && #[trigger] merged@[j].0@ == k;
            assert(emits(props, merged@[j].0@, model[merged@[j].0@], version@, role@, kind@));
        }
        Ok(result)
    }

    /// Merges the user's values with the product configuration and validates the result, in
    /// one step. Fails only where `version` is not a semantic version. The floating-point
    /// datatype is checked by `floats`.
    pub fn get<F: FloatCheck>(&self, version: &str, role: &str, kind: &PropertyNameKind, user_config: Vec<(String, Option<String>)>, floats: &F) -> (r: ValidationResult<Vec<(String, PropertyValidationResult)>>)
        ensures
            match semver_parse_result(version@) {
                Ok(v) => r matches Ok(res) && validated(
                    self.properties(),
                    merge_spec(self.properties(), user_config@, v, role@, kind@),
                    v,
                    role@,
                    kind@,
                    res@,
                ),
                Err(reason) => r matches Err(e) && e@ == (ErrorView::InvalidVersion { reason, version: version@ }),
            },
    {
        let product_version = match StackableVersion::parse(version) {
            Ok(v) => v,
            Err(e) => {
                return Err(e);
            },
        };
        let merged = match self.get_and_expand_properties(&product_version, role, kind, &user_config) {
            Ok(m) => m,
            Err(e) => {
                return Err(e);
            },
        };
        self.validate(
            &product_version,
            role,
            kind,
            &merged,
            Ghost(merge_spec(self.properties(), user_config@, product_version@, role@, kind@)),
            floats,
        )
    }
}

} // verus!
