//! Checks of a single value against a property's datatype and allowed values.
use vstd::prelude::*;

use crate::error::{owned, copy_strings, strings_view, Error, ErrorView};
use crate::types::{fancy_regex_match_result, str_eq, Datatype, PropertySpec, Unit};

verus! {

broadcast use vstd::string::group_string_axioms;

pub type ValidationResult<T> = Result<T, Error>;

/// Checks of values against the floating-point datatype. Floating-point numbers are not
/// handled inside this crate: the caller supplies this check.
pub trait FloatCheck {
    /// Parses `value` as a float and compares it with the bounds that are given; the error
    /// says which check failed.
    fn check_float(&self, name: &str, value: &str, min: &Option<String>, max: &Option<String>) -> Result<(), Error>;
}

pub open spec fn is_digit(c: char) -> bool {
    '0' <= c && c <= '9'
}

pub open spec fn all_digits(s: Seq<char>) -> bool {
    forall|i: int| 0 <= i < s.len() ==> is_digit(#[trigger] s[i])
}

/// The number that a text of decimal digits denotes.
pub open spec fn digits_value(s: Seq<char>) -> nat
    decreases s.len(),
{
    if s.len() == 0 {
        0
    } else {
        digits_value(s.drop_last()) * 10 + (s.last() as nat - '0' as nat) as nat
    }
}

/// The numeral of a non-negative number.
pub open spec fn nat_text(n: nat) -> Seq<char>
    decreases n,
{
    if n < 10 {
        seq![(n + '0' as nat) as char]
    } else {
        nat_text(n / 10).push(((n % 10) + '0' as nat) as char)
    }
}

/// The numeral of a number, with a minus sign where it is negative.
pub open spec fn int_text(n: int) -> Seq<char> {
    if n < 0 {
        seq!['-'] + nat_text((-n) as nat)
    } else {
        nat_text(n as nat)
    }
}

pub const I64_MAX: u64 = 9223372036854775807;

/// What `str::parse::<i64>` accepts: an optional sign and at least one digit, in range.
pub open spec fn parse_i64_spec(s: Seq<char>) -> Option<int> {
    if s.len() > 0 && (s[0] == '+' || s[0] == '-') {
        let rest = s.drop_first();
        if rest.len() > 0 && all_digits(rest) {
            let m = digits_value(rest) as int;
            if s[0] == '-' {
                if m <= I64_MAX + 1 {
                    Some(-m)
                } else {
                    None
                }
            } else if m <= I64_MAX {
                Some(m)
            } else {
                None
            }
        } else {
            None
        }
    } else if s.len() > 0 && all_digits(s) && digits_value(s) <= I64_MAX {
        Some(digits_value(s) as int)
    } else {
        None
    }
}

/// What `str::parse::<usize>` accepts: an optional plus sign and at least one digit, in range.
pub open spec fn parse_usize_spec(s: Seq<char>) -> Option<int> {
    let rest = if s.len() > 0 && s[0] == '+' {
        s.drop_first()
    } else {
        s
    };
    if rest.len() > 0 && all_digits(rest) && digits_value(rest) <= usize::MAX {
        Some(digits_value(rest) as int)
    } else {
        None
    }
}

/// What `str::parse::<bool>` accepts.
pub open spec fn parse_bool_spec(s: Seq<char>) -> Option<bool> {
    if s == seq!['t', 'r', 'u', 'e'] {
        Some(true)
    } else if s == seq!['f', 'a', 'l', 's', 'e'] {
        Some(false)
    } else {
        None
    }
}

/// The integer types whose values and bounds are compared.
pub enum NumberKind {
    I64,
    Usize,
}

pub open spec fn parse_number_spec(kind: NumberKind, s: Seq<char>) -> Option<int> {
    match kind {
        NumberKind::I64 => parse_i64_spec(s),
        NumberKind::Usize => parse_usize_spec(s),
    }
}

pub open spec fn type_name_spec(kind: NumberKind) -> Seq<char> {
    match kind {
        NumberKind::I64 => seq!['i', '6', '4'],
        NumberKind::Usize => seq!['u', 's', 'i', 'z', 'e'],
    }
}

/// The check of `value` against one bound: a bound that does not parse is a datatype
/// mismatch; a value below a minimum (`is_min`) or above a maximum is out of bounds.
pub open spec fn bound_verdict(name: Seq<char>, value: int, bound: Option<Seq<char>>, kind: NumberKind, is_min: bool) -> Result<(), ErrorView> {
    match bound {
        None => Ok(()),
        Some(b) => match parse_number_spec(kind, b) {
            None => Err(ErrorView::DatatypeNotMatching { property_name: name, value: b, datatype: type_name_spec(kind) }),
            Some(bv) => if (is_min && value < bv) || (!is_min && value > bv) {
                Err(ErrorView::PropertyValueOutOfBounds {
                    property_name: name,
                    received: int_text(value),
                    expected: int_text(bv),
                })
            } else {
                Ok(())
            },
        },
    }
}

/// The check of `value` against both bounds, the minimum first.
pub open spec fn bounds_verdict(name: Seq<char>, value: int, min: Option<Seq<char>>, max: Option<Seq<char>>, kind: NumberKind) -> Result<(), ErrorView> {
    match bound_verdict(name, value, min, kind, true) {
        Err(e) => Err(e),
        Ok(()) => bound_verdict(name, value, max, kind, false),
    }
}

/// The check of the pattern of a unit, where one is given.
pub open spec fn unit_verdict(name: Seq<char>, value: Seq<char>, unit: Option<Unit>) -> Result<(), ErrorView> {
    match unit {
        None => Ok(()),
        Some(u) => match fancy_regex_match_result(u.regex@, value) {
            Ok(true) => Ok(()),
            Ok(false) => Err(ErrorView::DatatypeRegexNotMatching { property_name: name, value }),
            Err(reason) => Err(ErrorView::RegexNotEvaluable {
                property_name: name,
                unit: u.name@,
                regex: u.regex@,
                value,
                reason,
            }),
        },
    }
}

/// The datatype check of `value`; `None` for the floating-point datatype, which the
/// caller's [`FloatCheck`] decides.
pub open spec fn datatype_verdict(datatype: Datatype, name: Seq<char>, value: Seq<char>) -> Option<Result<(), ErrorView>> {
    match datatype {
        Datatype::Bool => Some(
            if parse_bool_spec(value) is Some {
                Ok(())
            } else {
                Err(ErrorView::DatatypeNotMatching { property_name: name, value, datatype: seq!['b', 'o', 'o', 'l'] })
            },
        ),
        Datatype::Integer { min, max, .. } => Some(
            match parse_i64_spec(value) {
                None => Err(ErrorView::DatatypeNotMatching { property_name: name, value, datatype: type_name_spec(NumberKind::I64) }),
                Some(v) => bounds_verdict(name, v, opt_view(min), opt_view(max), NumberKind::I64),
            },
        ),
        Datatype::Float { .. } => None,
        Datatype::String { min, max, unit, .. } => Some(
            match bounds_verdict(name, byte_len(value), opt_view(min), opt_view(max), NumberKind::Usize) {
                Err(e) => Err(e),
                Ok(()) => unit_verdict(name, value, unit),
            },
        ),
        Datatype::Array { .. } => Some(Ok(())),
    }
}

/// The length in bytes of the UTF-8 encoding of a text, as `str::len` reports it.
pub open spec fn byte_len(s: Seq<char>) -> int {
    (vstd::utf8::encode_utf8(s).len() as usize) as int
}

pub open spec fn opt_view(o: Option<String>) -> Option<Seq<char>> {
    crate::types::opt_str_view(o)
}

/// The allowed-values check: a non-empty list of allowed values must hold the value.
pub open spec fn allowed_verdict(name: Seq<char>, value: Seq<char>, allowed: Option<Vec<String>>) -> Result<(), ErrorView> {
    match allowed {
        Some(l) => if l@.len() > 0 && !strings_view(l@).contains(value) {
            Err(ErrorView::PropertyValueNotInAllowedValues {
                property_name: name,
                value,
                allowed_values: strings_view(l@),
            })
        } else {
            Ok(())
        },
        None => Ok(()),
    }
}

pub open spec fn unit_result_view(r: Result<(), Error>) -> Result<(), ErrorView> {
    match r {
        Ok(_) => Ok(()),
        Err(e) => Err(e@),
    }
}

/// Relies on `Display` for `i64`: the decimal numeral, with a minus sign when negative.
#[verifier::external_body]
pub(crate) fn i64_to_string(n: i64) -> (r: String)
    ensures
        r@ == int_text(n as int),
{
    n.to_string()
}

/// Relies on `Display` for `usize`: the decimal numeral.
#[verifier::external_body]
pub(crate) fn usize_to_string(n: usize) -> (r: String)
    ensures
        r@ == int_text(n as int),
{
    n.to_string()
}

proof fn lemma_digits_prefix_le(s: Seq<char>, k: int)
    requires
        0 <= k <= s.len(),
        all_digits(s),
    ensures
        digits_value(s.subrange(0, k)) <= digits_value(s),
    decreases s.len() - k,
{
    if k < s.len() {
        lemma_digits_prefix_le(s, k + 1);
        let p = s.subrange(0, k + 1);
        assert(p.drop_last() =~= s.subrange(0, k));
        assert(is_digit(s[k]));
    } else {
        assert(s.subrange(0, k) =~= s);
    }
}

/// The number that the digits of `s` from `start` on denote, where they are all digits,
/// at least one, and the number is at most `limit`.
fn parse_digits(s: &str, start: usize, limit: u64) -> (r: Option<u64>)
    requires
        start <= s@.len(),
        limit >= 9,
    ensures
        ({
            let t = s@.subrange(start as int, s@.len() as int);
            match r {
                Some(v) => t.len() > 0 && all_digits(t) && digits_value(t) <= limit && v == digits_value(t),
                None => !(t.len() > 0 && all_digits(t) && digits_value(t) <= limit),
            }
        }),
{
    let ghost t = s@.subrange(start as int, s@.len() as int);
    let n = s.unicode_len();
    if start >= n {
        return None;
    }
    let mut acc: u64 = 0;
    let mut i: usize = start;
    while i < n
        invariant
            start <= i <= n,
            n == s@.len(),
            t == s@.subrange(start as int, s@.len() as int),
            all_digits(t.subrange(0, i - start)),
            acc == digits_value(t.subrange(0, i - start)),
            acc <= limit,
            limit >= 9,
        decreases n - i,
    {
        let c = s.get_char(i);
        if !('0' <= c && c <= '9') {
            assert(!is_digit(t[i - start]));
            return None;
        }
        let d = (c as u32 - '0' as u32) as u64;
        assert(d <= 9);
        assert(t.subrange(0, i + 1 - start).drop_last() =~= t.subrange(0, i - start));
        if acc > (limit - d) / 10 {
            proof {
                let ghost big = digits_value(t.subrange(0, i + 1 - start));
                assert(big == acc * 10 + d);
                assert(acc * 10 + d > limit) by (nonlinear_arith)
                    requires
                        acc > (limit - d) / 10,
                        d <= 9,
                        d <= limit,
                ;
                if all_digits(t) {
                    lemma_digits_prefix_le(t, i + 1 - start);
                }
            }
            return None;
        }
        proof {
            assert(acc * 10 + d <= limit) by (nonlinear_arith)
                requires
                    acc <= (limit - d) / 10,
                    d <= 9,
                    d <= limit,
            ;
        }
        acc = acc * 10 + d;
        i = i + 1;
        assert(all_digits(t.subrange(0, i - start)));
    }
    assert(t.subrange(0, i - start) =~= t);
    Some(acc)
}

/// Parses a value as `i64`, as `str::parse` does.
pub fn parse_i64(s: &str) -> (r: Option<i64>)
    ensures
        match r {
            Some(v) => parse_i64_spec(s@) == Some(v as int),
            None => parse_i64_spec(s@) is None,
        },
{
    let n = s.unicode_len();
    if n == 0 {
        return None;
    }
    let c = s.get_char(0);
    assert(s@.drop_first() =~= s@.subrange(1, s@.len() as int));
    assert(s@.subrange(0, s@.len() as int) =~= s@);
    if c == '+' {
        match parse_digits(s, 1, I64_MAX) {
            Some(m) => Some(m as i64),
            None => None,
        }
    } else if c == '-' {
        match parse_digits(s, 1, I64_MAX + 1) {
            Some(m) => if m == I64_MAX + 1 {
                Some(i64::MIN)
            } else {
                Some(-(m as i64))
            },
            None => None,
        }
    } else {
        match parse_digits(s, 0, I64_MAX) {
            Some(m) => Some(m as i64),
            None => None,
        }
    }
}

/// Parses a value as `usize`, as `str::parse` does.
pub fn parse_usize(s: &str) -> (r: Option<usize>)
    ensures
        match r {
            Some(v) => parse_usize_spec(s@) == Some(v as int),
            None => parse_usize_spec(s@) is None,
        },
{
    let n = s.unicode_len();
    if n == 0 {
        return None;
    }
    let c = s.get_char(0);
    assert(s@.drop_first() =~= s@.subrange(1, s@.len() as int));
    assert(s@.subrange(0, s@.len() as int) =~= s@);
    let start: usize = if c == '+' { 1 } else { 0 };
    match parse_digits(s, start, usize::MAX as u64) {
        Some(m) => Some(m as usize),
        None => None,
    }
}

/// Parses a value as `bool`, as `str::parse` does.
pub fn parse_bool(s: &str) -> (r: Option<bool>)
    ensures
        r == parse_bool_spec(s@),
{
    proof {
        reveal_strlit("true");
        reveal_strlit("false");
        assert("true"@ =~= seq!['t', 'r', 'u', 'e']);
        assert("false"@ =~= seq!['f', 'a', 'l', 's', 'e']);
    }
    if str_eq(s, "true") {
        Some(true)
    } else if str_eq(s, "false") {
        Some(false)
    } else {
        None
    }
}

/// Checks `value` against one bound of the given integer kind.
fn check_bound(name: &str, value: i128, bound: &Option<String>, kind: NumberKind, is_min: bool) -> (r: ValidationResult<()>)
    requires
        match kind {
            NumberKind::I64 => i64::MIN <= value <= i64::MAX,
            NumberKind::Usize => 0 <= value <= usize::MAX,
        },
    ensures
        unit_result_view(r) == bound_verdict(name@, value as int, opt_view(*bound), kind, is_min),
{
    match bound {
        None => Ok(()),
        Some(b) => {
            let parsed: Option<i128> = match kind {
                NumberKind::I64 => match parse_i64(b.as_str()) {
                    Some(x) => Some(x as i128),
                    None => None,
                },
                NumberKind::Usize => match parse_usize(b.as_str()) {
                    Some(x) => Some(x as i128),
                    None => None,
                },
            };
            match parsed {
                None => {
                    let datatype = match kind {
                        NumberKind::I64 => owned("i64"),
                        NumberKind::Usize => owned("usize"),
                    };
                    proof {
                        reveal_strlit("i64");
                        reveal_strlit("usize");
                        assert("i64"@ =~= seq!['i', '6', '4']);
                        assert("usize"@ =~= seq!['u', 's', 'i', 'z', 'e']);
                    }
                    Err(Error::DatatypeNotMatching { property_name: owned(name), value: b.clone(), datatype })
                },
                Some(bv) => {
                    if (is_min && value < bv) || (!is_min && value > bv) {
                        let (received, expected) = match kind {
                            NumberKind::I64 => (i64_to_string(value as i64), i64_to_string(bv as i64)),
                            NumberKind::Usize => (usize_to_string(value as usize), usize_to_string(bv as usize)),
                        };
                        Err(Error::PropertyValueOutOfBounds { property_name: owned(name), received, expected })
                    } else {
                        Ok(())
                    }
                },
            }
        },
    }
}

/// Checks an integer value against both bounds, the minimum first.
fn check_bounds(name: &str, value: i128, min: &Option<String>, max: &Option<String>, kind: NumberKind) -> (r: ValidationResult<()>)
    requires
        match kind {
            NumberKind::I64 => i64::MIN <= value <= i64::MAX,
            NumberKind::Usize => 0 <= value <= usize::MAX,
        },
    ensures
        unit_result_view(r) == bounds_verdict(name@, value as int, opt_view(*min), opt_view(*max), kind),
{
    let is_i64 = match kind { NumberKind::I64 => true, NumberKind::Usize => false };
    let k1 = if is_i64 { NumberKind::I64 } else { NumberKind::Usize };
    let k2 = if is_i64 { NumberKind::I64 } else { NumberKind::Usize };
    match check_bound(name, value, min, k1, true) {
        Err(e) => Err(e),
        Ok(()) => check_bound(name, value, max, k2, false),
    }
}

/// Checks a text value: its length in bytes against the bounds, then the unit's pattern.
fn check_datatype_string(name: &str, value: &str, min: &Option<String>, max: &Option<String>, unit: &Option<Unit>) -> (r: ValidationResult<()>)
    ensures
        unit_result_view(r) == match bounds_verdict(name@, byte_len(value@), opt_view(*min), opt_view(*max), NumberKind::Usize) {
            Err(e) => Err(e),
            Ok(()) => unit_verdict(name@, value@, *unit),
        },
{
    let len: usize = value.len();
    match check_bounds(name, len as i128, min, max, NumberKind::Usize) {
        Err(e) => {
            return Err(e);
        },
        Ok(()) => {},
    }
    match unit {
        None => Ok(()),
        Some(u) => match u.regex.is_match(value) {
            Ok(true) => Ok(()),
            Ok(false) => Err(Error::DatatypeRegexNotMatching { property_name: owned(name), value: owned(value) }),
            Err(reason) => {
                let regex = owned(u.regex.as_str());
                Err(Error::RegexNotEvaluable {
                    property_name: owned(name),
                    unit: u.name.clone(),
                    regex,
                    value: owned(value),
                    reason,
                })
            },
        },
    }
}

/// Checks if the property value fits the property's datatype. The floating-point datatype
/// is checked by `floats`.
pub fn check_datatype<F: FloatCheck>(property: &PropertySpec, name: &str, value: &str, floats: &F) -> (r: ValidationResult<()>)
    ensures
        match datatype_verdict(property.datatype, name@, value@) {
            Some(v) => unit_result_view(r) == v,
            None => true,
        },
{
    match &property.datatype {
        Datatype::Bool => {
            if parse_bool(value).is_some() {
                Ok(())
            } else {
                proof {
                    reveal_strlit("bool");
                    assert("bool"@ =~= seq!['b', 'o', 'o', 'l']);
                }
                Err(Error::DatatypeNotMatching { property_name: owned(name), value: owned(value), datatype: owned("bool") })
            }
        },
        Datatype::Integer { min, max, .. } => match parse_i64(value) {
            None => {
                proof {
                    reveal_strlit("i64");
                    assert("i64"@ =~= seq!['i', '6', '4']);
                }
                Err(Error::DatatypeNotMatching { property_name: owned(name), value: owned(value), datatype: owned("i64") })
            },
            Some(v) => check_bounds(name, v as i128, min, max, NumberKind::I64),
        },
        Datatype::Float { min, max, .. } => floats.check_float(name, value, min, max),
        Datatype::String { min, max, unit, .. } => check_datatype_string(name, value, min, max, unit),
        Datatype::Array { .. } => Ok(()),
    }
}

/// Checks if the property value is in the allowed values, where a non-empty list of them
/// is given.
pub fn check_allowed_values(property_name: &str, property_value: &str, allowed_values: &Option<Vec<String>>) -> (r: ValidationResult<()>)
    ensures
        unit_result_view(r) == allowed_verdict(property_name@, property_value@, *allowed_values),
{
    match allowed_values {
        None => Ok(()),
        Some(list) => {
            if list.len() == 0 {
                assert(allowed_verdict(property_name@, property_value@, *allowed_values) == Ok::<(), ErrorView>(()));
                return Ok(());
            }
            let mut i: usize = 0;
            while i < list.len()
                invariant
                    i <= list@.len(),
                    list@.len() > 0,
                    *allowed_values == Some(*list),
                    forall|j: int| 0 <= j < i ==> #[trigger] list@[j]@ != property_value@,
                decreases list.len() - i,
            {
                if str_eq(list[i].as_str(), property_value) {
                    assert(strings_view(list@)[i as int] == property_value@);
                    assert(strings_view(list@).contains(property_value@));
                    return Ok(());
                }
                i = i + 1;
            }
            assert(!strings_view(list@).contains(property_value@)) by {
                if strings_view(list@).contains(property_value@) {
                    let j = choose|j: int| 0 <= j < strings_view(list@).len() && strings_view(list@)[j] == property_value@;
                    assert(list@[j]@ == property_value@);
                }
            }
            Err(Error::PropertyValueNotInAllowedValues {
                property_name: owned(property_name),
                value: owned(property_value),
                allowed_values: copy_strings(list),
            })
        },
    }
}

} // verus!
