//! Tests of the attribute helpers.

use libms::{get_attr, get_attr_optional, MzmlError};

fn attrs() -> Vec<(String, String)> {
    vec![
        ("id".to_string(), "s1".to_string()),
        ("index".to_string(), "4".to_string()),
        ("index".to_string(), "9".to_string()),
    ]
}

#[test]
fn get_attr_finds_first_match() {
    let a = attrs();
    assert_eq!(get_attr(&a, "spectrum", "id").unwrap(), "s1");
    // Two attributes of one name: the first wins.
    assert_eq!(get_attr(&a, "spectrum", "index").unwrap(), "4");
}

#[test]
fn get_attr_reports_the_missing_name() {
    let a = attrs();
    match get_attr(&a, "spectrum", "defaultArrayLength").unwrap_err() {
        MzmlError::MissingAttribute(element, name) => {
            assert_eq!(element, "spectrum");
            assert_eq!(name, "defaultArrayLength");
        }
        other => panic!("expected MissingAttribute, got {:?}", other),
    }
}

#[test]
fn get_attr_optional_yields_nothing_when_absent() {
    let a = attrs();
    assert_eq!(get_attr_optional(&a, "id"), Some("s1".to_string()));
    assert_eq!(get_attr_optional(&a, "unitName"), None);
}
