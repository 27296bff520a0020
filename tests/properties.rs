use iotics_grpc_client::properties::common_keys::predicate::{COMMENT, LABEL};
use iotics_grpc_client::properties::{
    Property, PropertyBuilder, PropertyFinder, PropertyFinderError, Value,
};

fn sample() -> Vec<Property> {
    vec![
        PropertyBuilder::build_label("en", "Kettle"),
        PropertyBuilder::build_label("fr", "Bouilloire"),
        PropertyBuilder::build_string_literal_value("colour", "red"),
        PropertyBuilder::build_uri_value("colour", "http://colours/red"),
        PropertyBuilder::build_string_literal_value("colour", "blue"),
        Property { key: "empty".to_string(), value: None },
        PropertyBuilder::build_literal_value("size", "integer", "3"),
    ]
}

#[test]
fn builders_set_key_and_value() {
    let p = PropertyBuilder::build_label("en", "Kettle");
    assert_eq!(p.key, LABEL);
    match p.value {
        Some(Value::LangLiteralValue(l)) => {
            assert_eq!(l.lang, "en");
            assert_eq!(l.value, "Kettle");
        }
        _ => panic!("expected a lang literal"),
    }
    match PropertyBuilder::build_literal_value("k", "integer", "3").value {
        Some(Value::LiteralValue(l)) => {
            assert_eq!(l.data_type, "integer");
            assert_eq!(l.value, "3");
        }
        _ => panic!("expected a literal"),
    }
    match PropertyBuilder::build_uri_value("k", "http://x").value {
        Some(Value::UriValue(u)) => assert_eq!(u.value, "http://x"),
        _ => panic!("expected a uri"),
    }
    match PropertyBuilder::build_string_literal_value("k", "s").value {
        Some(Value::StringLiteralValue(s)) => assert_eq!(s.value, "s"),
        _ => panic!("expected a string literal"),
    }
    assert_eq!(PropertyBuilder::build_lang_literal(COMMENT, "en", "c").key, COMMENT);
}

#[test]
fn filter_values_keeps_order_and_skips_missing_values() {
    let props = sample();
    let values = PropertyFinder::filter_values_by_key(&props, "colour").unwrap();
    assert_eq!(values.len(), 3);
    assert!(matches!(values[0], Value::StringLiteralValue(s) if s.value == "red"));
    assert!(matches!(values[1], Value::UriValue(_)));
    assert!(matches!(values[2], Value::StringLiteralValue(s) if s.value == "blue"));
}

#[test]
fn filter_values_errors() {
    let props = sample();
    assert_eq!(
        PropertyFinder::filter_values_by_key(&props, "missing").unwrap_err(),
        PropertyFinderError::KeyNotFound
    );
    assert_eq!(
        PropertyFinder::filter_values_by_key(&props, "empty").unwrap_err(),
        PropertyFinderError::ValueNotFound
    );
    assert_eq!(
        PropertyFinder::filter_values_by_key(&[], "colour").unwrap_err(),
        PropertyFinderError::KeyNotFound
    );
}

#[test]
fn find_string_literal_takes_the_first() {
    let props = sample();
    assert_eq!(PropertyFinder::find_string_literal_value(&props, "colour"), Ok("red"));
    assert_eq!(
        PropertyFinder::find_string_literal_value(&props, "size"),
        Err(PropertyFinderError::ValueNotFound)
    );
    assert_eq!(
        PropertyFinder::find_string_literal_value(&props, "nope"),
        Err(PropertyFinderError::KeyNotFound)
    );
}

#[test]
fn find_label_by_language() {
    let props = sample();
    assert_eq!(PropertyFinder::find_label(&props, "fr"), Ok("Bouilloire"));
    assert_eq!(PropertyFinder::find_label(&props, "en"), Ok("Kettle"));
    assert_eq!(
        PropertyFinder::find_label(&props, "de"),
        Err(PropertyFinderError::LanguageNotFound)
    );
    assert_eq!(
        PropertyFinder::find_lang_literal_value(&props, "colour", "en"),
        Err(PropertyFinderError::LanguageNotFound)
    );
    assert_eq!(
        PropertyFinder::find_label(&props[2..], "en"),
        Err(PropertyFinderError::KeyNotFound)
    );
}

#[test]
fn finder_error_messages() {
    assert_eq!(PropertyFinderError::KeyNotFound.message(), "property key not found");
    assert_eq!(PropertyFinderError::ValueNotFound.message(), "property value not found");
    assert_eq!(PropertyFinderError::LanguageNotFound.message(), "language not found");
}
