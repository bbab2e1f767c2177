//! Laws of the merge and validation engine, proved over its specification.
use vstd::prelude::*;

use crate::error::ErrorView;
use crate::types::{
    fancy_regex_match_result, select_value, select_value_from, semver_display, value_applies,
    Datatype, KindView, PropertyAnchor, PropertyExpansion, PropertySpec, PropertyValueView, Unit,
    VersionParts,
};
use crate::util::{expand_fold, overlay, user_map, PropertyMap};
use crate::validation::{allowed_verdict, datatype_verdict, int_text, opt_view, parse_i64_spec};
use crate::{
    emits, find_spec, found_outcome, merge_spec, merge_upto, no_copy_name, outcome_ok, selects,
    value_outcome_ok, OutcomeView,
};

verus! {

/// Selecting a value depends on nothing but the entries and the version: two equal
/// versions select the same value.
pub proof fn selection_is_deterministic(values: Seq<PropertyValueView>, a: VersionParts, b: VersionParts)
    requires
        a == b,
    ensures
        select_value(values, a) == select_value(values, b),
{
}

proof fn lemma_select_from(values: Seq<PropertyValueView>, version: VersionParts, i: int)
    requires
        0 <= i <= values.len(),
    ensures
        match select_value_from(values, version, i) {
            Some(x) => exists|k: int|
                i <= k < values.len() && value_applies(values[k], version) && values[k].2 == x && (forall|j: int|
                    i <= j < k ==> !value_applies(#[trigger] values[j], version)),
            None => forall|j: int| i <= j < values.len() ==> !value_applies(#[trigger] values[j], version),
        },
    decreases values.len() - i,
{
    if i < values.len() {
        lemma_select_from(values, version, i + 1);
        if !value_applies(values[i], version) {
            match select_value_from(values, version, i + 1) {
                Some(x) => {
                    let k = choose|k: int|
                        i + 1 <= k < values.len() && value_applies(values[k], version) && values[k].2 == x
                            && (forall|j: int| i + 1 <= j < k ==> !value_applies(#[trigger] values[j], version));
                    assert forall|j: int| i <= j < k implies !value_applies(#[trigger] values[j], version) by {
                        if j > i {
                        }
                    }
                },
                None => {},
            }
        }
    }
}

/// The first entry whose version window holds the version wins; where none does, nothing
/// is selected.
pub proof fn selection_takes_first_match(values: Seq<PropertyValueView>, version: VersionParts)
    ensures
        match select_value(values, version) {
            Some(x) => exists|k: int|
                0 <= k < values.len() && value_applies(values[k], version) && values[k].2 == x && (forall|j: int|
                    0 <= j < k ==> !value_applies(#[trigger] values[j], version)),
            None => forall|j: int| 0 <= j < values.len() ==> !value_applies(#[trigger] values[j], version),
        },
{
    lemma_select_from(values, version, 0);
}

proof fn lemma_overlay_user_wins(acc: PropertyMap, s: Seq<(String, Option<String>)>, k: Seq<char>)
    requires
        user_map(s).contains_key(k),
    ensures
        overlay(acc, s).contains_key(k),
        overlay(acc, s)[k] == user_map(s)[k],
    decreases s.len(),
{
    if s.len() > 0 {
        if s.last().0@ != k {
            lemma_overlay_user_wins(acc, s.drop_last(), k);
        }
    }
}

/// A name that the user supplies keeps the user's value in the merge (unless its property
/// is a no-copy one, whose names never appear).
pub proof fn user_value_wins(props: Seq<PropertyAnchor>, user: Seq<(String, Option<String>)>, version: VersionParts, role: Seq<char>, kind: KindView, name: Seq<char>)
    requires
        user_map(user).contains_key(name),
        !no_copy_name(props, name, role, kind, version),
    ensures
        merge_spec(props, user, version, role, kind).contains_key(name),
        merge_spec(props, user, version, role, kind)[name] == user_map(user)[name],
{
    lemma_overlay_user_wins(merge_upto(props, user, version, role, kind, props.len() as int), user, name);
}

/// The name of a property that must not be copied to the output for the role never
/// appears in the merge, whatever the user supplies.
pub proof fn no_copy_is_excluded(props: Seq<PropertyAnchor>, user: Seq<(String, Option<String>)>, version: VersionParts, role: Seq<char>, kind: KindView, name: Seq<char>, i: int)
    requires
        find_spec(props, name, role, kind, version) == Some(i),
        props[i].property.spec_has_role_no_copy(role),
    ensures
        !merge_spec(props, user, version, role, kind).contains_key(name),
{
}

/// The integer bounds of a datatype, as texts.
pub open spec fn integer_bounds(d: Datatype, lo: Seq<char>, hi: Seq<char>) -> bool {
    match d {
        Datatype::Integer { min, max, .. } => opt_view(min) == Some(lo) && opt_view(max) == Some(hi),
        _ => false,
    }
}

/// For an integer property with bounds `m` and `M` (neither deprecated nor restricted to
/// allowed values), a value `m <= v <= M` is accepted as valid, default or recommended, and
/// a value below `m` or above `M` is out of bounds, naming the bound it violates.
pub proof fn integer_bounds_round_trip(p: PropertySpec, name: Seq<char>, value: Seq<char>, version: VersionParts, lo: Seq<char>, hi: Seq<char>, o: OutcomeView)
    requires
        integer_bounds(p.datatype, lo, hi),
        parse_i64_spec(lo) is Some,
        parse_i64_spec(hi) is Some,
        parse_i64_spec(value) is Some,
        p.allowed_values is None,
        !p.spec_deprecated(version),
        value_outcome_ok(p, name, value, version, o),
    ensures
        ({
            let v = parse_i64_spec(value).unwrap();
            let m = parse_i64_spec(lo).unwrap();
            let big_m = parse_i64_spec(hi).unwrap();
            &&& m <= v <= big_m ==> (o is Valid || o is Default || o is RecommendedDefault)
            &&& v < m ==> o == OutcomeView::Error(
                value,
                ErrorView::PropertyValueOutOfBounds { property_name: name, received: int_text(v), expected: int_text(m) },
            )
            &&& m <= v && v > big_m ==> o == OutcomeView::Error(
                value,
                ErrorView::PropertyValueOutOfBounds { property_name: name, received: int_text(v), expected: int_text(big_m) },
            )
        }),
{
}

/// Once a property is deprecated in the version, a value is never classified as default,
/// recommended or valid: a value that passes its checks is a warning.
pub proof fn deprecation_is_terminal(p: PropertySpec, name: Seq<char>, value: Seq<char>, version: VersionParts, o: OutcomeView)
    requires
        p.spec_deprecated(version),
        value_outcome_ok(p, name, value, version, o),
    ensures
        !(o is Default || o is RecommendedDefault || o is Valid),
        !(o is Error) ==> o is Warn,
{
}

/// A name the user supplies that denotes no property under the kind, role and version is
/// merged with the user's value and comes out as unknown with that value, never as an
/// error.
pub proof fn unknown_name_passes_through(props: Seq<PropertyAnchor>, user: Seq<(String, Option<String>)>, version: VersionParts, role: Seq<char>, kind: KindView, name: Seq<char>, value: Seq<char>, o: OutcomeView)
    requires
        user_map(user).contains_key(name),
        user_map(user)[name] == Some(value),
        find_spec(props, name, role, kind, version) is None,
    ensures
        merge_spec(props, user, version, role, kind).contains_key(name),
        merge_spec(props, user, version, role, kind)[name] == Some(value),
        emits(props, name, Some(value), version, role, kind),
        outcome_ok(props, name, Some(value), version, role, kind, o) ==> o == OutcomeView::Unknown(value),
{
    user_value_wins(props, user, version, role, kind, name);
}

/// A value of a deprecated property that passes its datatype and allowed-values checks
/// is a warning that names the property, the queried version and the version the property
/// is deprecated since.
pub proof fn deprecated_value_warns(p: PropertySpec, name: Seq<char>, value: Seq<char>, version: VersionParts, o: OutcomeView)
    requires
        p.spec_deprecated(version),
        datatype_verdict(p.datatype, name, value) == Some(Ok::<(), ErrorView>(())),
        allowed_verdict(name, value, p.allowed_values) is Ok,
        value_outcome_ok(p, name, value, version, o),
    ensures
        o == OutcomeView::Warn(
            value,
            ErrorView::VersionDeprecated {
                property_name: name,
                product_version: semver_display(version),
                deprecated_version: semver_display(p.deprecated_since.unwrap()@),
            },
        ),
{
}

/// A text datatype with a unit and no length bounds.
pub open spec fn text_with_unit(d: Datatype, u: Unit) -> bool {
    match d {
        Datatype::String { min, max, unit, .. } => min is None && max is None && unit == Some(u),
        _ => false,
    }
}

/// A value that the unit's pattern does not match is an error naming the property and
/// the value.
pub proof fn unit_mismatch_is_error(p: PropertySpec, u: Unit, name: Seq<char>, value: Seq<char>, version: VersionParts, o: OutcomeView)
    requires
        text_with_unit(p.datatype, u),
        fancy_regex_match_result(u.regex@, value) == Ok::<bool, Seq<char>>(false),
        value_outcome_ok(p, name, value, version, o),
    ensures
        o == OutcomeView::Error(value, ErrorView::DatatypeRegexNotMatching { property_name: name, value }),
{
}

/// A value that passes its checks, of a property not deprecated, and that equals the
/// recommended value for the version, is a recommended default.
pub proof fn recommended_value_is_recommended_default(p: PropertySpec, name: Seq<char>, value: Seq<char>, version: VersionParts, o: OutcomeView)
    requires
        !p.spec_deprecated(version),
        datatype_verdict(p.datatype, name, value) == Some(Ok::<(), ErrorView>(())),
        allowed_verdict(name, value, p.allowed_values) is Ok,
        selects(p.recommended_values, version, value),
        value_outcome_ok(p, name, value, version, o),
    ensures
        o == OutcomeView::RecommendedDefault(value),
{
}

/// An expansion target that lists the role, exists in the version and has a name under the
/// kind is set to the expansion's value, unless a later expansion writes the same name.
pub proof fn expansion_sets_target(acc: PropertyMap, ts: Seq<PropertyExpansion>, version: VersionParts, role: Seq<char>, kind: KindView, i: int, target: Seq<char>, value: String)
    requires
        0 <= i < ts.len(),
        ts[i].property.spec_has_role(role),
        ts[i].property.spec_supported(version),
        ts[i].property.name_for_kind(kind) == Some(target),
        ts[i].value == Some(value),
        forall|j: int| i < j < ts.len() ==> (#[trigger] ts[j]).property.name_for_kind(kind) != Some(target),
    ensures
        expand_fold(acc, ts, version, role, kind).contains_key(target),
        expand_fold(acc, ts, version, role, kind)[target] == Some(value@),
    decreases ts.len(),
{
    if i < ts.len() - 1 {
        let front = ts.drop_last();
        assert forall|j: int| i < j < front.len() implies (#[trigger] front[j]).property.name_for_kind(kind) != Some(target) by {
            assert(front[j] == ts[j]);
        }
        expansion_sets_target(acc, front, version, role, kind, i, target, value);
        assert(ts.last() == ts[ts.len() - 1]);
    }
}

} // verus!
