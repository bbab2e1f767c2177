//! Simple `major.minor.patch` versions.
use vstd::prelude::*;

use crate::error::owned;
use crate::validation::{int_text, parse_usize, parse_usize_spec, usize_to_string};

verus! {

broadcast use vstd::string::group_string_axioms;

/// The pattern a version text ends with: three numbers without leading zeros, each
/// followed by one separating character but the last.
pub const VERSION_PATTERN: &'static str = "(?P<major>[1-9]\\d*).(?P<minor>[1-9]\\d*).(?P<patch>[1-9]\\d*)$";

/// The first three capture groups of a regular expression's first match in a text, where
/// the pattern compiles, matches, and all three take part.
pub uninterp spec fn regex_three_groups(pattern: Seq<char>, text: Seq<char>) -> Option<(Seq<char>, Seq<char>, Seq<char>)>;

/// Relies on `regex::Regex::new` and `regex::Regex::captures`: groups 1 to 3 of the first
/// match.
#[verifier::external_body]
fn capture_three_groups(pattern: &str, text: &str) -> (r: Option<(String, String, String)>)
    ensures
        match r {
            Some((a, b, c)) => regex_three_groups(pattern@, text@) == Some((a@, b@, c@)),
            None => regex_three_groups(pattern@, text@) is None,
        },
{
    let caps = regex::Regex::new(pattern).ok()?.captures(text)?;
    Some((
        caps.get(1)?.as_str().to_string(),
        caps.get(2)?.as_str().to_string(),
        caps.get(3)?.as_str().to_string(),
    ))
}

/// A version of three numbers.
#[derive(PartialEq, PartialOrd, Debug)]
pub struct Version {
    pub major: usize,
    pub minor: usize,
    pub patch: usize,
}

/// Why a text is not a version.
#[derive(PartialEq, Debug)]
pub enum VersionError {
    WrongVersionPattern(String),
}

/// The numbers of a version text: the three groups of the version pattern, each read as
/// a `usize`.
pub open spec fn version_numbers(text: Seq<char>) -> Option<(int, int, int)> {
    match regex_three_groups(VERSION_PATTERN@, text) {
        Some((a, b, c)) => match (parse_usize_spec(a), parse_usize_spec(b), parse_usize_spec(c)) {
            (Some(x), Some(y), Some(z)) => Some((x, y, z)),
            _ => None,
        },
        None => None,
    }
}

impl Version {
    /// Reads a version from the text; a text that does not end in the version pattern, or
    /// whose numbers do not fit, is refused with the text.
    pub fn parse(version: &str) -> (r: Result<Version, VersionError>)
        ensures
            match version_numbers(version@) {
                Some((x, y, z)) => r matches Ok(v) && v.major == x && v.minor == y && v.patch == z,
                None => r matches Err(VersionError::WrongVersionPattern(t)) && t@ == version@,
            },
    {
        let fail = VersionError::WrongVersionPattern(owned(version));
        match capture_three_groups(VERSION_PATTERN, version) {
            None => Err(fail),
            Some((a, b, c)) => match (parse_usize(a.as_str()), parse_usize(b.as_str()), parse_usize(c.as_str())) {
                (Some(major), Some(minor), Some(patch)) => Ok(Version { major, minor, patch }),
                _ => Err(fail),
            },
        }
    }

    /// The version as `major.minor.patch`.
    pub fn to_string(&self) -> (r: String)
        ensures
            r@ == int_text(self.major as int) + seq!['.'] + int_text(self.minor as int) + seq!['.']
                + int_text(self.patch as int),
    {
        proof {
            reveal_strlit(".");
            assert("."@ =~= seq!['.']);
        }
        let mut s = usize_to_string(self.major);
        s.append(".");
        s.append(usize_to_string(self.minor).as_str());
        s.append(".");
        s.append(usize_to_string(self.patch).as_str());
        s
    }
}

} // verus!
