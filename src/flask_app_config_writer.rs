//! Writer for Flask App configurations: Python assignments of primitive literals and
//! expressions at the top level of a configuration file.
use vstd::prelude::*;

use crate::error::owned;
use crate::types::str_eq;
use crate::validation::{
    i64_to_string, int_text, is_digit, parse_bool, parse_bool_spec, parse_i64, parse_i64_spec,
};

verus! {

broadcast use vstd::string::group_string_axioms;

#[verifier::external_type_specification]
#[verifier::external_body]
pub struct ExIoError(std::io::Error);

/// Errors which can occur when using this module.
#[derive(Debug)]
#[allow(inconsistent_fields)]
pub enum FlaskAppConfigWriterError {
    ConvertIdentifierError { value: String },
    ConvertBoolLiteralError { value: String },
    ConvertIntLiteralError { value: String },
    ConvertStringLiteralError { value: String },
    ConvertExpressionError { value: String },
    WriteConfigError { source: std::io::Error },
}

/// Mapping from configuration options to Python types.
pub trait FlaskAppConfigOptions {
    fn python_type(&self) -> PythonType;
}

/// All supported Python types.
#[derive(Clone, Copy, Debug, PartialEq, Eq)]
pub enum PythonType {
    /// Python identifier
    Identifier,
    /// Boolean literal
    BoolLiteral,
    /// Integer literal
    IntLiteral,
    /// ASCII string literal
    StringLiteral,
    /// Python expression
    Expression,
}

/// The type and the value of a failed conversion.
pub open spec fn conversion_error_view(e: FlaskAppConfigWriterError) -> Option<(PythonType, Seq<char>)> {
    match e {
        FlaskAppConfigWriterError::ConvertIdentifierError { value } => Some((PythonType::Identifier, value@)),
        FlaskAppConfigWriterError::ConvertBoolLiteralError { value } => Some((PythonType::BoolLiteral, value@)),
        FlaskAppConfigWriterError::ConvertIntLiteralError { value } => Some((PythonType::IntLiteral, value@)),
        FlaskAppConfigWriterError::ConvertStringLiteralError { value } => Some((PythonType::StringLiteral, value@)),
        FlaskAppConfigWriterError::ConvertExpressionError { value } => Some((PythonType::Expression, value@)),
        FlaskAppConfigWriterError::WriteConfigError { .. } => None,
    }
}

pub open spec fn is_identifier_char(c: char) -> bool {
    ('a' <= c && c <= 'z') || ('A' <= c && c <= 'Z') || is_digit(c) || c == '_'
}

/// A Python identifier: ASCII letters, digits and underscores, not starting with a digit.
pub open spec fn python_identifier_ok(s: Seq<char>) -> bool {
    &&& s.len() > 0
    &&& !is_digit(s[0])
    &&& forall|i: int| 0 <= i < s.len() ==> is_identifier_char(#[trigger] s[i])
}

/// The characters with the Unicode `White_Space` property.
pub open spec fn unicode_white_space(c: char) -> bool {
    ('\u{9}' <= c && c <= '\u{d}') || c == ' ' || c == '\u{85}' || c == '\u{a0}' || c == '\u{1680}'
        || ('\u{2000}' <= c && c <= '\u{200a}') || c == '\u{2028}' || c == '\u{2029}' || c == '\u{202f}'
        || c == '\u{205f}' || c == '\u{3000}'
}

pub open spec fn hex_digit(n: nat) -> char {
    if n < 10 {
        (n + '0' as nat) as char
    } else {
        (n - 10 + 'a' as nat) as char
    }
}

/// The lower-case hexadecimal numeral of a number.
pub open spec fn hex_text(n: nat) -> Seq<char>
    decreases n,
{
    if n < 16 {
        seq![hex_digit(n)]
    } else {
        hex_text(n / 16).push(hex_digit(n % 16))
    }
}

/// `char::escape_default`: tab, carriage return, line feed, quotes and backslash get a
/// backslash escape, printable ASCII stays, everything else becomes `\u{..}`.
pub open spec fn char_escape_default(c: char) -> Seq<char> {
    if c == '\t' {
        seq!['\\', 't']
    } else if c == '\r' {
        seq!['\\', 'r']
    } else if c == '\n' {
        seq!['\\', 'n']
    } else if c == '\\' {
        seq!['\\', '\\']
    } else if c == '\'' {
        seq!['\\', '\'']
    } else if c == '"' {
        seq!['\\', '"']
    } else if ' ' <= c && c <= '~' {
        seq![c]
    } else {
        seq!['\\', 'u', '{'] + hex_text(c as nat) + seq!['}']
    }
}

/// `str::escape_default`: every character escaped by `char::escape_default`.
pub open spec fn escape_default_text(s: Seq<char>) -> Seq<char>
    decreases s.len(),
{
    if s.len() == 0 {
        Seq::empty()
    } else {
        escape_default_text(s.drop_last()) + char_escape_default(s.last())
    }
}

/// Relies on `str::escape_default`, which escapes each character with `char::escape_default`.
#[verifier::external_body]
fn escape_default(s: &str) -> (r: String)
    ensures
        r@ == escape_default_text(s@),
{
    s.escape_default().to_string()
}

/// Relies on `char::is_whitespace`: the Unicode `White_Space` property.
#[verifier::external_body]
fn char_is_whitespace(c: char) -> (r: bool)
    ensures
        r == unicode_white_space(c),
{
    c.is_whitespace()
}

/// The Python text of a value of the given type, or `None` where it cannot be converted.
pub open spec fn python_value(t: PythonType, v: Seq<char>) -> Option<Seq<char>> {
    match t {
        PythonType::Identifier => if python_identifier_ok(v) {
            Some(v)
        } else {
            None
        },
        PythonType::BoolLiteral => match parse_bool_spec(v) {
            Some(true) => Some(seq!['T', 'r', 'u', 'e']),
            Some(false) => Some(seq!['F', 'a', 'l', 's', 'e']),
            None => None,
        },
        PythonType::IntLiteral => match parse_i64_spec(v) {
            Some(n) => Some(int_text(n)),
            None => None,
        },
        PythonType::StringLiteral => if vstd::utf8::is_ascii_chars(v) {
            Some(seq!['"'] + escape_default_text(v) + seq!['"'])
        } else {
            None
        },
        PythonType::Expression => if exists|i: int| 0 <= i < v.len() && !unicode_white_space(#[trigger] v[i]) {
            Some(v)
        } else {
            None
        },
    }
}

/// The conversion's result: the Python text, or the error naming the type and the value.
pub open spec fn conversion_ok(t: PythonType, v: Seq<char>, r: Result<String, FlaskAppConfigWriterError>) -> bool {
    match python_value(t, v) {
        Some(text) => r matches Ok(s) && s@ == text,
        None => r matches Err(e) && conversion_error_view(e) == Some((t, v)),
    }
}

impl PythonType {
    /// Converts the given string to Python.
    pub fn convert_to_python(&self, value: &str) -> (r: Result<String, FlaskAppConfigWriterError>)
        ensures
            conversion_ok(*self, value@, r),
    {
        match self {
            PythonType::Identifier => PythonType::convert_to_python_identifier(value),
            PythonType::BoolLiteral => PythonType::convert_to_python_bool_literal(value),
            PythonType::IntLiteral => PythonType::convert_to_python_int_literal(value),
            PythonType::StringLiteral => PythonType::convert_to_python_string_literal(value),
            PythonType::Expression => PythonType::convert_to_python_expression(value),
        }
    }

    fn convert_to_python_identifier(value: &str) -> (r: Result<String, FlaskAppConfigWriterError>)
        ensures
            conversion_ok(PythonType::Identifier, value@, r),
    {
        let n = value.unicode_len();
        let mut ok = n > 0 && !({
            let c = value.get_char(0);
            '0' <= c && c <= '9'
        });
        let mut i: usize = 0;
        while i < n
            invariant
                n == value@.len(),
                i <= n,
                ok ==> (n > 0 && !is_digit(value@[0]) && forall|j: int| 0 <= j < i ==> is_identifier_char(#[trigger] value@[j])),
                !ok ==> !python_identifier_ok(value@),
            decreases n - i,
        {
            let c = value.get_char(i);
            if !(('a' <= c && c <= 'z') || ('A' <= c && c <= 'Z') || ('0' <= c && c <= '9') || c == '_') {
                ok = false;
            }
            i = i + 1;
        }
        if ok {
            Ok(owned(value))
        } else {
            Err(FlaskAppConfigWriterError::ConvertIdentifierError { value: owned(value) })
        }
    }

    fn convert_to_python_bool_literal(value: &str) -> (r: Result<String, FlaskAppConfigWriterError>)
        ensures
            conversion_ok(PythonType::BoolLiteral, value@, r),
    {
        proof {
            reveal_strlit("True");
            reveal_strlit("False");
            assert("True"@ =~= seq!['T', 'r', 'u', 'e']);
            assert("False"@ =~= seq!['F', 'a', 'l', 's', 'e']);
        }
        match parse_bool(value) {
            Some(true) => Ok(owned("True")),
            Some(false) => Ok(owned("False")),
            None => Err(FlaskAppConfigWriterError::ConvertBoolLiteralError { value: owned(value) }),
        }
    }

    fn convert_to_python_int_literal(value: &str) -> (r: Result<String, FlaskAppConfigWriterError>)
        ensures
            conversion_ok(PythonType::IntLiteral, value@, r),
    {
        match parse_i64(value) {
            Some(i) => Ok(i64_to_string(i)),
            None => Err(FlaskAppConfigWriterError::ConvertIntLiteralError { value: owned(value) }),
        }
    }

    fn convert_to_python_string_literal(value: &str) -> (r: Result<String, FlaskAppConfigWriterError>)
        ensures
            conversion_ok(PythonType::StringLiteral, value@, r),
    {
        if value.is_ascii() {
            proof {
                reveal_strlit("\"");
                assert("\""@ =~= seq!['"']);
            }
            let mut s = String::new();
            s.append("\"");
            s.append(escape_default(value).as_str());
            s.append("\"");
            Ok(s)
        } else {
            Err(FlaskAppConfigWriterError::ConvertStringLiteralError { value: owned(value) })
        }
    }

    fn convert_to_python_expression(value: &str) -> (r: Result<String, FlaskAppConfigWriterError>)
        ensures
            conversion_ok(PythonType::Expression, value@, r),
    {
        let n = value.unicode_len();
        let mut i: usize = 0;
        while i < n
            invariant
                n == value@.len(),
                i <= n,
                forall|j: int| 0 <= j < i ==> unicode_white_space(#[trigger] value@[j]),
            decreases n - i,
        {
            if !char_is_whitespace(value.get_char(i)) {
                return Ok(owned(value));
            }
            i = i + 1;
        }
        Err(FlaskAppConfigWriterError::ConvertExpressionError { value: owned(value) })
    }
}

/// The lines of the imports, each followed by a line feed.
pub open spec fn imports_text(imports: Seq<String>) -> Seq<char>
    decreases imports.len(),
{
    if imports.len() == 0 {
        Seq::empty()
    } else {
        imports_text(imports.drop_last()) + imports.last()@ + seq!['\n']
    }
}

/// The type a value is written as: its option's type, or an expression for an option the
/// configuration does not know (an override).
pub open spec fn effective_type(t: Option<PythonType>) -> PythonType {
    match t {
        Some(t) => t,
        None => PythonType::Expression,
    }
}

/// The assignments of the entries, or the first failing conversion (the name before the
/// value).
pub open spec fn assignments_text(entries: Seq<(String, String, Option<PythonType>)>) -> Result<Seq<char>, (PythonType, Seq<char>)>
    decreases entries.len(),
{
    if entries.len() == 0 {
        Ok(Seq::empty())
    } else {
        match assignments_text(entries.drop_last()) {
            Err(e) => Err(e),
            Ok(before) => {
                let (name, value, t) = entries.last();
                match python_value(PythonType::Identifier, name@) {
                    None => Err((PythonType::Identifier, name@)),
                    Some(variable) => match python_value(effective_type(t), value@) {
                        None => Err((effective_type(t), value@)),
                        Some(content) => Ok(before + variable + seq![' ', '=', ' '] + content + seq!['\n']),
                    },
                }
            },
        }
    }
}

/// The text of a configuration file: the imports, an empty line, and one assignment per
/// entry `(name, value, type of the option named so, if it is known)`.
pub fn config_file_text(entries: &Vec<(String, String, Option<PythonType>)>, imports: &Vec<String>) -> (r: Result<String, FlaskAppConfigWriterError>)
    ensures
        match assignments_text(entries@) {
            Ok(body) => r matches Ok(s) && s@ == imports_text(imports@) + seq!['\n'] + body,
            Err(e) => r matches Err(err) && conversion_error_view(err) == Some(e),
        },
{
    proof {
        reveal_strlit("\n");
        reveal_strlit(" = ");
        assert("\n"@ =~= seq!['\n']);
        assert(" = "@ =~= seq![' ', '=', ' ']);
    }
    let mut text = String::new();
    let mut k: usize = 0;
    while k < imports.len()
        invariant
            k <= imports@.len(),
            text@ == imports_text(imports@.subrange(0, k as int)),
        decreases imports.len() - k,
    {
        assert(imports@.subrange(0, k + 1).drop_last() =~= imports@.subrange(0, k as int));
        proof {
            reveal_strlit("\n");
            assert("\n"@ =~= seq!['\n']);
        }
        text.append(imports[k].as_str());
        text.append("\n");
        k = k + 1;
    }
    assert(imports@.subrange(0, imports@.len() as int) =~= imports@);
    text.append("\n");
    let ghost head = text@;
    let mut i: usize = 0;
    while i < entries.len()
        invariant
            i <= entries@.len(),
            head == imports_text(imports@) + seq!['\n'],
            assignments_text(entries@.subrange(0, i as int)) matches Ok(body) && text@ == head + body,
        decreases entries.len() - i,
    {
        assert(entries@.subrange(0, i + 1).drop_last() =~= entries@.subrange(0, i as int));
        proof {
            reveal_strlit("\n");
            reveal_strlit(" = ");
            assert("\n"@ =~= seq!['\n']);
            assert(" = "@ =~= seq![' ', '=', ' ']);
        }
        let ghost before = text@;
        let entry = &entries[i];
        let variable = match PythonType::Identifier.convert_to_python(entry.0.as_str()) {
            Ok(v) => v,
            Err(e) => {
                proof {
                    lemma_assignments_prefix_fails(entries@, i as int + 1);
                }
                return Err(e);
            },
        };
        let t = match entry.2 {
            Some(t) => t,
            None => PythonType::Expression,
        };
        let content = match t.convert_to_python(entry.1.as_str()) {
            Ok(c) => c,
            Err(e) => {
                proof {
                    lemma_assignments_prefix_fails(entries@, i as int + 1);
                }
                return Err(e);
            },
        };
        text.append(variable.as_str());
        text.append(" = ");
        text.append(content.as_str());
        text.append("\n");
        assert(text@ =~= before + variable@ + seq![' ', '=', ' '] + content@ + seq!['\n']);
        i = i + 1;
    }
    assert(entries@.subrange(0, entries@.len() as int) =~= entries@);
    Ok(text)
}

proof fn lemma_assignments_prefix_fails(entries: Seq<(String, String, Option<PythonType>)>, k: int)
    requires
        0 <= k <= entries.len(),
        assignments_text(entries.subrange(0, k)) is Err,
    ensures
        assignments_text(entries) == assignments_text(entries.subrange(0, k)),
    decreases entries.len() - k,
{
    if k < entries.len() {
        assert(entries.subrange(0, k + 1).drop_last() =~= entries.subrange(0, k));
        lemma_assignments_prefix_fails(entries, k + 1);
    } else {
        assert(entries.subrange(0, k) =~= entries);
    }
}

} // verus!
