//! The check of a product configuration before it is used: units, roles, the default and
//! recommended values of every property, and the targets of its expansions. The check
//! stops at the first failure and reports it.
//!
//! An expansion holds its target property by value and is followed one level deep, so a
//! configuration cannot make the expansion of a property run in a cycle.
use vstd::prelude::*;

use crate::error::{owned, value_specs_view, Error, ErrorView};
use crate::types::{
    select_value, semver_display, str_eq, value_list_view, ProductConfig, PropertyAnchor,
    PropertyExpansion, PropertyName, PropertySpec, PropertyValueSpec, PropertyValueView, Unit,
    UnitAnchor,
};
use crate::validation::{
    allowed_verdict, check_allowed_values, check_datatype, datatype_verdict, FloatCheck,
    ValidationResult,
};

verus! {

broadcast use vstd::string::group_string_axioms;

/// What is wrong with a unit: no name, or else no pattern.
pub open spec fn unit_error(u: Unit) -> Option<ErrorView> {
    if u.name@.len() == 0 {
        Some(ErrorView::ConfigSpecPropertiesNotFound { name: "unit"@ })
    } else if u.regex@.len() == 0 {
        Some(ErrorView::EmptyRegexPattern { unit: u.name@ })
    } else {
        None
    }
}

/// The error of the first unit from index `i` on that has one.
pub open spec fn units_error_from(units: Seq<UnitAnchor>, i: int) -> Option<ErrorView>
    decreases units.len() - i,
{
    if i < 0 || i >= units.len() {
        None
    } else {
        match unit_error(units[i].unit) {
            Some(e) => Some(e),
            None => units_error_from(units, i + 1),
        }
    }
}

/// What is wrong with a literal of the property: its datatype check (where it is decided
/// here), or else its allowed values.
pub open spec fn literal_error(p: PropertySpec, name: Seq<char>, value: Seq<char>) -> Option<ErrorView> {
    match datatype_verdict(p.datatype, name, value) {
        Some(Err(e)) => Some(e),
        _ => match allowed_verdict(name, value, p.allowed_values) {
            Err(e) => Some(e),
            Ok(_) => None,
        },
    }
}

/// The error of the first literal from index `i` on that has one.
pub open spec fn literals_error_from(p: PropertySpec, name: Seq<char>, l: Seq<PropertyValueView>, i: int) -> Option<ErrorView>
    decreases l.len() - i,
{
    if i < 0 || i >= l.len() {
        None
    } else {
        match literal_error(p, name, l[i].2) {
            Some(e) => Some(e),
            None => literals_error_from(p, name, l, i + 1),
        }
    }
}

/// What is wrong with a list of default or recommended values, where given: it selects no
/// value for the version the property exists as of, or else one of its literals fails.
pub open spec fn value_list_error(p: PropertySpec, name: Seq<char>, list: Option<Vec<PropertyValueSpec>>) -> Option<ErrorView> {
    match value_list_view(list) {
        None => None,
        Some(l) => if select_value(l, p.as_of_version@) is None {
            Some(
                ErrorView::PropertySpecValueMissingForVersion {
                    property_name: p.property_names@[0]@,
                    property_values: l,
                    version: semver_display(p.as_of_version@),
                },
            )
        } else {
            literals_error_from(p, name, l, 0)
        },
    }
}

/// Whether `n` (name and kind) is a name of one of the properties.
pub open spec fn name_known(props: Seq<PropertyAnchor>, n: PropertyName) -> bool {
    exists|j: int, k: int|
        0 <= j < props.len() && 0 <= k < props[j].property.property_names@.len()
            && #[trigger] props[j].property.property_names@[k]@ == n@
}

/// The first of `names` from index `k` on that is no name of a property.
pub open spec fn names_error_from(props: Seq<PropertyAnchor>, names: Seq<PropertyName>, k: int) -> Option<ErrorView>
    decreases names.len() - k,
{
    if k < 0 || k >= names.len() {
        None
    } else if !name_known(props, names[k]) {
        Some(ErrorView::PropertyNotFound { property_name: names[k]@ })
    } else {
        names_error_from(props, names, k + 1)
    }
}

/// What is wrong with the first expansion target from index `i` on that has a fault: it
/// has no name, or one of its names is unknown.
pub open spec fn targets_error_from(props: Seq<PropertyAnchor>, ts: Seq<PropertyExpansion>, i: int) -> Option<ErrorView>
    decreases ts.len() - i,
{
    if i < 0 || i >= ts.len() {
        None
    } else if ts[i].property.property_names@.len() == 0 {
        Some(ErrorView::ConfigSpecPropertiesNotFound { name: "property_names"@ })
    } else {
        match names_error_from(props, ts[i].property.property_names@, 0) {
            Some(e) => Some(e),
            None => targets_error_from(props, ts, i + 1),
        }
    }
}

pub open spec fn targets_error(props: Seq<PropertyAnchor>, p: PropertySpec) -> Option<ErrorView> {
    match p.expands_to {
        None => None,
        Some(ts) => targets_error_from(props, ts@, 0),
    }
}

/// What is wrong with a property, in the order checked: no name; no role; its recommended
/// values; its default values; its expansion targets. The literals are checked under the
/// property's first name.
pub open spec fn property_error(props: Seq<PropertyAnchor>, p: PropertySpec) -> Option<ErrorView> {
    if p.property_names@.len() == 0 {
        Some(ErrorView::ConfigSpecPropertiesNotFound { name: "property_names"@ })
    } else if p.roles@.len() == 0 {
        Some(ErrorView::PropertySpecRoleNotProvided { name: p.property_names@[0]@ })
    } else {
        match value_list_error(p, p.property_names@[0].name@, p.recommended_values) {
            Some(e) => Some(e),
            None => match value_list_error(p, p.property_names@[0].name@, p.default_values) {
                Some(e) => Some(e),
                None => targets_error(props, p),
            },
        }
    }
}

/// The error of the first property from index `i` on that has one.
pub open spec fn properties_error_from(props: Seq<PropertyAnchor>, i: int) -> Option<ErrorView>
    decreases props.len() - i,
{
    if i < 0 || i >= props.len() {
        None
    } else {
        match property_error(props, props[i].property) {
            Some(e) => Some(e),
            None => properties_error_from(props, i + 1),
        }
    }
}

/// What is wrong with a configuration: the first faulty unit, or else the first faulty
/// property.
pub open spec fn config_error(config: ProductConfig) -> Option<ErrorView> {
    match units_error_from(config.spec.units@, 0) {
        Some(e) => Some(e),
        None => properties_error_from(config.properties@, 0),
    }
}

/// A configuration is well-formed: no unit and no property has a fault.
pub open spec fn config_ok(config: ProductConfig) -> bool {
    config_error(config) is None
}

/// Whether the configuration has a floating-point property, whose literals the caller's
/// check decides.
pub open spec fn has_float_property(config: ProductConfig) -> bool {
    exists|i: int| 0 <= i < config.properties@.len() && (#[trigger] config.properties@[i]).property.datatype is Float
}

pub open spec fn check_result_view(r: ValidationResult<()>) -> Option<ErrorView> {
    match r {
        Ok(_) => None,
        Err(e) => Some(e@),
    }
}

fn check_units(units: &Vec<UnitAnchor>) -> (r: ValidationResult<()>)
    ensures
        check_result_view(r) == units_error_from(units@, 0),
{
    let mut i: usize = 0;
    while i < units.len()
        invariant
            i <= units@.len(),
            units_error_from(units@, 0) == units_error_from(units@, i as int),
        decreases units.len() - i,
    {
        let unit = &units[i].unit;
        if unit.name.as_str().is_empty() {
            return Err(Error::ConfigSpecPropertiesNotFound { name: owned("unit") });
        }
        if unit.regex.as_str().is_empty() {
            return Err(Error::EmptyRegexPattern { unit: unit.name.clone() });
        }
        i = i + 1;
    }
    Ok(())
}

fn copy_values(values: &Vec<PropertyValueSpec>) -> (r: Vec<PropertyValueSpec>)
    ensures
        value_specs_view(r@) == value_specs_view(values@),
{
    let mut r: Vec<PropertyValueSpec> = Vec::new();
    let mut i: usize = 0;
    while i < values.len()
        invariant
            i <= values@.len(),
            r@.len() == i,
            forall|j: int| 0 <= j < i ==> #[trigger] r@[j]@ == values@[j]@,
        decreases values.len() - i,
    {
        r.push(values[i].duplicate());
        i = i + 1;
    }
    assert(value_specs_view(r@) =~= value_specs_view(values@));
    r
}

fn check_value_list<F: FloatCheck>(property: &PropertySpec, name: &str, list: &Option<Vec<PropertyValueSpec>>, floats: &F) -> (r: ValidationResult<()>)
    requires
        property.property_names@.len() > 0,
    ensures
        r is Ok ==> value_list_error(*property, name@, *list) is None,
        !(property.datatype is Float) ==> check_result_view(r) == value_list_error(*property, name@, *list),
{
    match list {
        None => Ok(()),
        Some(values) => {
            let ghost l = values@.map_values(|e: PropertyValueSpec| e@);
            assert(value_list_view(*list) == Some(l));
            let selected = property.filter_value(&property.as_of_version, values.as_slice());
            if selected.is_none() {
                let e = Error::PropertySpecValueMissingForVersion {
                    property_name: property.property_names[0].duplicate(),
                    property_values: copy_values(values),
                    version: property.as_of_version.to_string(),
                };
                assert(crate::error::value_specs_view(values@) =~= l);
                return Err(e);
            }
            let mut i: usize = 0;
            while i < values.len()
                invariant
                    i <= values@.len(),
                    l == values@.map_values(|e: PropertyValueSpec| e@),
                    value_list_view(*list) == Some(l),
                    select_value(l, property.as_of_version@) is Some,
                    literals_error_from(*property, name@, l, 0) == literals_error_from(*property, name@, l, i as int),
                decreases values.len() - i,
            {
                let literal = values[i].value.as_str();
                assert(l[i as int].2 == literal@);
                match check_datatype(property, name, literal, floats) {
                    Err(e) => {
                        return Err(e);
                    },
                    Ok(()) => {},
                }
                match check_allowed_values(name, literal, &property.allowed_values) {
                    Err(e) => {
                        return Err(e);
                    },
                    Ok(()) => {},
                }
                i = i + 1;
            }
            Ok(())
        },
    }
}

fn check_name_known(props: &Vec<PropertyAnchor>, n: &PropertyName) -> (r: bool)
    ensures
        r == name_known(props@, *n),
{
    let mut j: usize = 0;
    while j < props.len()
        invariant
            j <= props@.len(),
            forall|a: int, b: int|
                0 <= a < j && 0 <= b < props@[a].property.property_names@.len() ==> #[trigger] props@[a].property.property_names@[b]@ != n@,
        decreases props.len() - j,
    {
        let names = &props[j].property.property_names;
        let mut k: usize = 0;
        while k < names.len()
            invariant
                j < props@.len(),
                *names == props@[j as int].property.property_names,
                k <= names@.len(),
                forall|a: int, b: int|
                    0 <= a < j && 0 <= b < props@[a].property.property_names@.len() ==> #[trigger] props@[a].property.property_names@[b]@ != n@,
                forall|b: int| 0 <= b < k ==> #[trigger] names@[b]@ != n@,
            decreases names.len() - k,
        {
            if str_eq(names[k].name.as_str(), n.name.as_str()) && names[k].kind == n.kind {
                assert(props@[j as int].property.property_names@[k as int]@ == n@);
                return true;
            }
            k = k + 1;
        }
        j = j + 1;
    }
    false
}

fn check_targets(props: &Vec<PropertyAnchor>, property: &PropertySpec) -> (r: ValidationResult<()>)
    ensures
        check_result_view(r) == targets_error(props@, *property),
{
    match &property.expands_to {
        None => Ok(()),
        Some(targets) => {
            let mut i: usize = 0;
            while i < targets.len()
                invariant
                    i <= targets@.len(),
                    property.expands_to == Some(*targets),
                    targets_error_from(props@, targets@, 0) == targets_error_from(props@, targets@, i as int),
                decreases targets.len() - i,
            {
                let names = &targets[i].property.property_names;
                if names.len() == 0 {
                    return Err(Error::ConfigSpecPropertiesNotFound { name: owned("property_names") });
                }
                let mut k: usize = 0;
                while k < names.len()
                    invariant
                        i < targets@.len(),
                        property.expands_to == Some(*targets),
                        targets_error_from(props@, targets@, 0) == targets_error_from(props@, targets@, i as int),
                        *names == targets@[i as int].property.property_names,
                        names@.len() > 0,
                        k <= names@.len(),
                        names_error_from(props@, names@, 0) == names_error_from(props@, names@, k as int),
                    decreases names.len() - k,
                {
                    if !check_name_known(props, &names[k]) {
                        return Err(Error::PropertyNotFound { property_name: names[k].duplicate() });
                    }
                    k = k + 1;
                }
                i = i + 1;
            }
            Ok(())
        },
    }
}

fn check_property<F: FloatCheck>(props: &Vec<PropertyAnchor>, property: &PropertySpec, floats: &F) -> (r: ValidationResult<()>)
    ensures
        r is Ok ==> property_error(props@, *property) is None,
        !(property.datatype is Float) ==> check_result_view(r) == property_error(props@, *property),
{
    if property.property_names.len() == 0 {
        return Err(Error::ConfigSpecPropertiesNotFound { name: owned("property_names") });
    }
    if property.roles.len() == 0 {
        return Err(Error::PropertySpecRoleNotProvided { name: property.property_names[0].duplicate() });
    }
    let name = property.property_names[0].name.as_str();
    match check_value_list(property, name, &property.recommended_values, floats) {
        Err(e) => {
            return Err(e);
        },
        Ok(()) => {},
    }
    match check_value_list(property, name, &property.default_values, floats) {
        Err(e) => {
            return Err(e);
        },
        Ok(()) => {},
    }
    check_targets(props, property)
}

/// Checks a configuration before it is used, and reports the first fault: the units
/// first, then the properties in order. The floating-point literals are checked by
/// `floats`, so where a floating-point property is present an error of `floats` may come
/// first.
pub fn check_config<F: FloatCheck>(config: &ProductConfig, floats: &F) -> (r: ValidationResult<()>)
    ensures
        r is Ok ==> config_ok(*config),
        units_error_from(config.spec.units@, 0) is Some ==> check_result_view(r) == units_error_from(config.spec.units@, 0),
        !has_float_property(*config) ==> check_result_view(r) == config_error(*config),
{
    match check_units(&config.spec.units) {
        Err(e) => {
            return Err(e);
        },
        Ok(()) => {},
    }
    let props = &config.properties;
    let mut i: usize = 0;
    while i < props.len()
        invariant
            i <= props@.len(),
            *props == config.properties,
            units_error_from(config.spec.units@, 0) is None,
            properties_error_from(props@, 0) == properties_error_from(props@, i as int),
        decreases props.len() - i,
    {
        let property = &props[i].property;
        assert(!has_float_property(*config) ==> !(props@[i as int].property.datatype is Float));
        match check_property(props, property, floats) {
            Err(e) => {
                return Err(e);
            },
            Ok(()) => {},
        }
        i = i + 1;
    }
    Ok(())
}

} // verus!
