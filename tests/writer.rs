use std::collections::{BTreeMap, HashMap};

use product_config::writer::{
    java_properties_bytes, to_hadoop_xml, to_hadoop_xml_snippet, to_java_properties_string,
    wrap_hadoop_xml_snippet, PropertiesWriterError,
};

const PROPERTY_1: &str = "property";
const PROPERTY_2: &str = "property2";
const VALUE_OK: &str = "ab&c";
const VALUE_OK_2: &str = "some_text!()";
const VALUE_OK_2_ESCAPED: &str = "some_text\\!()";
const VALUE_URL: &str = "file://this/location/file.abc";
const VALUE_URL_ESCAPED: &str = "file\\://this/location/file.abc";
const UTF8_ERROR: &str = "æææ";

fn entries<'a, T>(properties: T) -> Vec<(String, Option<String>)>
where
    T: Iterator<Item = (&'a String, &'a Option<String>)>,
{
    properties.map(|(k, v)| (k.clone(), v.clone())).collect()
}

fn calculate_result<'a, T>(properties: T) -> String
where
    T: Iterator<Item = (&'a String, &'a Option<String>)>,
{
    let mut result = String::new();

    for (k, v) in properties {
        if let Some(value) = v {
            if value.is_empty() {
                result.push_str(&format!("{}={}\n", &k, "\"\""));
            } else {
                result.push_str(&format!("{}={}\n", &k, &value));
            }
        } else {
            result.push_str(&format!("{}={}\n", &k, ""));
        }
    }

    result
}

#[test]
fn test_xml_snippet() {
    let mut map = HashMap::new();
    map.insert(PROPERTY_1.to_string(), Some(VALUE_OK.to_string()));
    map.insert(PROPERTY_2.to_string(), Some(VALUE_OK_2.to_string()));
    map.insert("foo".to_string(), None);

    let result = to_hadoop_xml_snippet(&entries(map.iter()));
    assert!(result.contains("ab&amp;"));
    assert!(!result.contains("foo"));
    assert!(result.contains(PROPERTY_2));
}

#[test]
fn test_writer_ok() -> Result<(), PropertiesWriterError> {
    let mut map = HashMap::new();
    map.insert(PROPERTY_1.to_string(), Some(VALUE_OK.to_string()));
    map.insert(PROPERTY_2.to_string(), Some(VALUE_OK_2.to_string()));

    let result = to_java_properties_string(&entries(map.iter()))?;

    map.insert(PROPERTY_2.to_string(), Some(VALUE_OK_2_ESCAPED.to_string()));
    assert_eq!(result, calculate_result(map.iter()));
    Ok(())
}

#[test]
fn test_writer_escape() -> Result<(), PropertiesWriterError> {
    let mut map = HashMap::new();
    map.insert(PROPERTY_1.to_string(), Some(VALUE_URL.to_string()));

    let result = to_java_properties_string(&entries(map.iter()))?;

    map.insert(PROPERTY_1.to_string(), Some(VALUE_URL_ESCAPED.to_string()));
    assert_eq!(result, calculate_result(map.iter()));
    Ok(())
}

#[test]
fn test_writer_no_utf8() {
    let mut map = HashMap::new();
    map.insert(PROPERTY_1.to_string(), Some(UTF8_ERROR.to_string()));

    let result = to_java_properties_string(&entries(map.iter()));
    assert!(result.is_err());
}

#[test]
fn test_write_java_properties() {
    let mut btree_map = BTreeMap::new();
    btree_map.insert("normal".to_string(), Some("normal".to_string()));
    btree_map.insert("empty".to_string(), Some("".to_string()));
    btree_map.insert("none".to_string(), None);

    let expected = "empty=\nnone=\nnormal=normal\n";

    let output = java_properties_bytes(&entries(btree_map.iter())).unwrap();

    let result = String::from_utf8(output).unwrap();
    assert_eq!(result, expected);
}

#[test]
fn test_xml_escape_attributes() {
    let mut data = BTreeMap::new();
    let no_escaping = "file:///foo:bar/foo?bar=123";
    let to_escape = "<abc>";
    let to_escape_expected = "&lt;abc&gt;";

    data.insert("not_escaped".to_string(), Some(no_escaping.to_string()));
    data.insert("to_escaped".to_string(), Some(to_escape.to_string()));

    let result = to_hadoop_xml(&entries(data.iter()));

    assert!(result.contains(no_escaping));
    assert!(result.contains(to_escape_expected));
}

#[test]
fn xml_snippet_is_exact() {
    let data = vec![
        ("a\"b".to_string(), Some("x'y\n".to_string())),
        ("skipped".to_string(), None),
        ("empty".to_string(), Some(String::new())),
    ];
    assert_eq!(
        to_hadoop_xml_snippet(&data),
        "  <property>\n    <name>a&quot;b</name>\n    <value>x&apos;y&#xA;</value>\n  </property>\n  <property>\n    <name>empty</name>\n    <value></value>\n  </property>\n"
    );
}

#[test]
fn xml_document_wraps_the_snippet() {
    assert_eq!(
        wrap_hadoop_xml_snippet("X"),
        "<?xml version=\"1.0\"?>\n<configuration>\nX</configuration>"
    );
    assert_eq!(
        to_hadoop_xml(&vec![]),
        "<?xml version=\"1.0\"?>\n<configuration>\n</configuration>"
    );
}

#[test]
fn java_properties_escape_keys_and_separators() {
    let data = vec![
        ("a key".to_string(), Some("x=y:z".to_string())),
        ("tab".to_string(), Some("\t#".to_string())),
    ];
    assert_eq!(
        to_java_properties_string(&data).unwrap(),
        "a\\ key=x\\=y\\:z\ntab=\\t\\#\n"
    );
}

#[test]
fn java_properties_outside_latin1_is_unicode_escaped() {
    let data = vec![("k".to_string(), Some("❤".to_string()))];
    assert_eq!(to_java_properties_string(&data).unwrap(), "k=\\u2764\n");
}

#[test]
fn java_properties_latin1_is_not_utf8() {
    let data = vec![("k".to_string(), Some("é".to_string()))];
    assert_eq!(java_properties_bytes(&data).unwrap(), vec![b'k', b'=', 0xe9, b'\n']);
    assert!(matches!(
        to_java_properties_string(&data),
        Err(PropertiesWriterError::FromUtf8Error { .. })
    ));
}
