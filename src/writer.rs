//! Renders resolved properties as a Java properties text or as Hadoop configuration XML.
use vstd::prelude::*;

use crate::types::opt_str_view;

verus! {

broadcast use vstd::string::group_string_axioms;

#[verifier::external_type_specification]
#[verifier::external_body]
pub struct ExPropertiesError(java_properties::PropertiesError);

#[verifier::external_type_specification]
#[verifier::external_body]
pub struct ExFromUtf8Error(std::string::FromUtf8Error);

/// Why a properties text could not be produced.
#[derive(Debug)]
pub enum PropertiesWriterError {
    /// The properties writer failed (a character its encoding cannot hold).
    PropertiesError { source: java_properties::PropertiesError },
    /// The written bytes are not UTF-8.
    FromUtf8Error { source: std::string::FromUtf8Error },
}

/// The bytes that the Java properties writer produces for one key and value, or `None`
/// where it fails.
pub uninterp spec fn java_properties_line(key: Seq<char>, value: Seq<char>) -> Option<Seq<u8>>;

/// Relies on `java_properties::PropertiesWriter::write` (and `flush`) on a fresh writer
/// over a byte vector: it appends the escaped, encoded line for the pair. It does not fail:
/// writing into a vector cannot, and characters outside the encoding are written as
/// `\u` escapes.
#[verifier::external_body]
fn write_properties_line(out: &mut Vec<u8>, key: &str, value: &str) -> (r: Result<(), java_properties::PropertiesError>)
    ensures
        r is Ok,
        r is Ok <==> java_properties_line(key@, value@) is Some,
        r is Ok ==> final(out)@ == old(out)@ + java_properties_line(key@, value@).unwrap(),
{
    let mut writer = java_properties::PropertiesWriter::new(&mut *out);
    writer.write(key, value)?;
    writer.flush()
}

/// Relies on `String::from_utf8`: the bytes decoded, where they are UTF-8.
#[verifier::external_body]
fn string_from_utf8(bytes: Vec<u8>) -> (r: Result<String, std::string::FromUtf8Error>)
    ensures
        r is Ok <==> vstd::utf8::valid_utf8(bytes@),
        r matches Ok(s) ==> s@ == vstd::utf8::decode_utf8(bytes@),
{
    String::from_utf8(bytes)
}

/// A missing value is written as the empty text.
pub open spec fn value_or_empty(v: Option<String>) -> Seq<char> {
    match v {
        Some(s) => s@,
        None => Seq::empty(),
    }
}

/// The bytes of a properties text: one line per entry, in order; `None` where a line fails.
pub open spec fn properties_text(s: Seq<(String, Option<String>)>) -> Option<Seq<u8>>
    decreases s.len(),
{
    if s.len() == 0 {
        Some(Seq::empty())
    } else {
        match (properties_text(s.drop_last()), java_properties_line(s.last().0@, value_or_empty(s.last().1))) {
            (Some(a), Some(b)) => Some(a + b),
            _ => None,
        }
    }
}

proof fn lemma_properties_text_prefix_fails(s: Seq<(String, Option<String>)>, k: int)
    requires
        0 <= k <= s.len(),
        properties_text(s.subrange(0, k)) is None,
    ensures
        properties_text(s) is None,
    decreases s.len() - k,
{
    if k < s.len() {
        assert(s.subrange(0, k + 1).drop_last() =~= s.subrange(0, k));
        lemma_properties_text_prefix_fails(s, k + 1);
    } else {
        assert(s.subrange(0, k) =~= s);
    }
}

/// The bytes of a Java properties text, one `key=value` line per entry, in order
/// (`None` values are written as empty).
pub fn java_properties_bytes(properties: &Vec<(String, Option<String>)>) -> (r: Result<Vec<u8>, PropertiesWriterError>)
    ensures
        r is Ok,
        match properties_text(properties@) {
            Some(b) => r matches Ok(v) && v@ == b,
            None => r matches Err(PropertiesWriterError::PropertiesError { .. }),
        },
{
    let mut output: Vec<u8> = Vec::new();
    let mut i: usize = 0;
    while i < properties.len()
        invariant
            i <= properties@.len(),
            properties_text(properties@.subrange(0, i as int)) == Some(output@),
        decreases properties.len() - i,
    {
        assert(properties@.subrange(0, i + 1).drop_last() =~= properties@.subrange(0, i as int));
        let key = properties[i].0.as_str();
        let value = match &properties[i].1 {
            Some(v) => v.as_str(),
            None => "",
        };
        proof {
            reveal_strlit("");
        }
        assert(value@ == value_or_empty(properties@[i as int].1));
        match write_properties_line(&mut output, key, value) {
            Ok(()) => {},
            Err(source) => {
                proof {
                    lemma_properties_text_prefix_fails(properties@, i + 1);
                }
                return Err(PropertiesWriterError::PropertiesError { source });
            },
        }
        i = i + 1;
    }
    assert(properties@.subrange(0, properties@.len() as int) =~= properties@);
    Ok(output)
}

/// Creates a common Java properties file text in the format
/// `property_1=value_1\nproperty_2=value_2\n`, escaped as `java.util.Properties` does.
pub fn to_java_properties_string(properties: &Vec<(String, Option<String>)>) -> (r: Result<String, PropertiesWriterError>)
    ensures
        match properties_text(properties@) {
            Some(b) => if vstd::utf8::valid_utf8(b) {
                r matches Ok(s) && s@ == vstd::utf8::decode_utf8(b)
            } else {
                r matches Err(PropertiesWriterError::FromUtf8Error { .. })
            },
            None => r matches Err(PropertiesWriterError::PropertiesError { .. }),
        },
{
    let bytes = match java_properties_bytes(properties) {
        Ok(b) => b,
        Err(e) => {
            return Err(e);
        },
    };
    match string_from_utf8(bytes) {
        Ok(s) => Ok(s),
        Err(source) => Err(PropertiesWriterError::FromUtf8Error { source }),
    }
}

/// The escaped form of one character in an XML attribute value.
pub open spec fn xml_attribute_char(c: char) -> Seq<char> {
    if c == '<' {
        seq!['&', 'l', 't', ';']
    } else if c == '>' {
        seq!['&', 'g', 't', ';']
    } else if c == '"' {
        seq!['&', 'q', 'u', 'o', 't', ';']
    } else if c == '\'' {
        seq!['&', 'a', 'p', 'o', 's', ';']
    } else if c == '&' {
        seq!['&', 'a', 'm', 'p', ';']
    } else if c == '\n' {
        seq!['&', '#', 'x', 'A', ';']
    } else if c == '\r' {
        seq!['&', '#', 'x', 'D', ';']
    } else {
        seq![c]
    }
}

/// A text escaped for an XML attribute value, character by character.
pub open spec fn xml_attribute_escaped(s: Seq<char>) -> Seq<char>
    decreases s.len(),
{
    if s.len() == 0 {
        Seq::empty()
    } else {
        xml_attribute_escaped(s.drop_last()) + xml_attribute_char(s.last())
    }
}

/// Relies on `xml::escape::escape_str_attribute`: `<`, `>`, `"`, `'`, `&`, line feed and
/// carriage return are replaced by their entities, every other character is kept.
#[verifier::external_body]
fn escape_attribute(s: &str) -> (r: String)
    ensures
        r@ == xml_attribute_escaped(s@),
{
    xml::escape::escape_str_attribute(s).into_owned()
}

/// The XML element of one property.
pub open spec fn xml_property(key: Seq<char>, value: Seq<char>) -> Seq<char> {
    "  <property>\n    <name>"@ + xml_attribute_escaped(key) + "</name>\n    <value>"@
        + xml_attribute_escaped(value) + "</value>\n  </property>\n"@
}

/// The XML elements of the entries that have a value, in order.
pub open spec fn xml_snippet(s: Seq<(String, Option<String>)>) -> Seq<char>
    decreases s.len(),
{
    if s.len() == 0 {
        Seq::empty()
    } else {
        match s.last().1 {
            Some(v) => xml_snippet(s.drop_last()) + xml_property(s.last().0@, v@),
            None => xml_snippet(s.drop_last()),
        }
    }
}

/// Converts properties into a Hadoop configuration XML snippet, without the wrapping
/// `<configuration>` element so that it can be composed. Entries without a value are left
/// out; empty values are kept. Keys and values are escaped.
pub fn to_hadoop_xml_snippet(properties: &Vec<(String, Option<String>)>) -> (r: String)
    ensures
        r@ == xml_snippet(properties@),
{
    let mut result = String::new();
    let mut i: usize = 0;
    while i < properties.len()
        invariant
            i <= properties@.len(),
            result@ == xml_snippet(properties@.subrange(0, i as int)),
        decreases properties.len() - i,
    {
        assert(properties@.subrange(0, i + 1).drop_last() =~= properties@.subrange(0, i as int));
        match &properties[i].1 {
            Some(value) => {
                let escaped_value = escape_attribute(value.as_str());
                let escaped_key = escape_attribute(properties[i].0.as_str());
                let ghost before = result@;
                result.append("  <property>\n    <name>");
                result.append(escaped_key.as_str());
                result.append("</name>\n    <value>");
                result.append(escaped_value.as_str());
                result.append("</value>\n  </property>\n");
                assert(result@ =~= before + xml_property(properties@[i as int].0@, value@));
            },
            None => {},
        }
        i = i + 1;
    }
    assert(properties@.subrange(0, properties@.len() as int) =~= properties@);
    result
}

/// The XML document around a snippet.
pub open spec fn hadoop_xml_document(snippet: Seq<char>) -> Seq<char> {
    "<?xml version=\"1.0\"?>\n<configuration>\n"@ + snippet + "</configuration>"@
}

/// Wraps an XML snippet in the elements that make a Hadoop XML file.
pub fn wrap_hadoop_xml_snippet(snippet: &str) -> (r: String)
    ensures
        r@ == hadoop_xml_document(snippet@),
{
    let mut result = String::new();
    result.append("<?xml version=\"1.0\"?>\n<configuration>\n");
    result.append(snippet);
    result.append("</configuration>");
    result
}

/// Converts properties into a Hadoop configuration XML document. Entries without a value
/// are left out; empty values are kept. Keys and values are escaped.
pub fn to_hadoop_xml(properties: &Vec<(String, Option<String>)>) -> (r: String)
    ensures
        r@ == hadoop_xml_document(xml_snippet(properties@)),
{
    let snippet = to_hadoop_xml_snippet(properties);
    wrap_hadoop_xml_snippet(snippet.as_str())
}

} // verus!
