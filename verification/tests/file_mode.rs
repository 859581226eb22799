use csrgen::config::{CSRConfig, ConfigError};

const FULL_DOCUMENT: &str = "{\
    \"country\": \"US\",\
    \"state_or_province\": \"CA\",\
    \"locality\": \"SF\",\
    \"org_name\": \"Acme\",\
    \"common_name\": \"acme.test\",\
    \"email\": \"a@b.com\",\
    \"password\": \"secret\"\
}";

#[test]
fn file_mode_full_document() {
    let config = CSRConfig::from_json_text(FULL_DOCUMENT).unwrap();
    assert_eq!(config.country, "US");
    assert_eq!(config.state_or_province, "CA");
    assert_eq!(config.locality, "SF");
    assert_eq!(config.org_name, "Acme");
    assert_eq!(config.common_name, "acme.test");
    assert_eq!(config.email, Some("a@b.com".to_string()));
    assert_eq!(config.password, Some("secret".to_string()));
}

#[test]
fn file_mode_optional_fields_absent() {
    let text = "{\
        \"country\": \"US\",\
        \"state_or_province\": \"CA\",\
        \"locality\": \"SF\",\
        \"org_name\": \"Acme\",\
        \"common_name\": \"acme.test\"\
    }";
    let config = CSRConfig::from_json_text(text).unwrap();
    assert_eq!(config.email, None);
    assert_eq!(config.password, None);
}

#[test]
fn file_mode_missing_required_field() {
    let text = "{\
        \"country\": \"US\",\
        \"state_or_province\": \"CA\",\
        \"locality\": \"SF\",\
        \"org_name\": \"Acme\"\
    }";
    assert!(matches!(
        CSRConfig::from_json_text(text),
        Err(ConfigError::MissingField)
    ));
}

#[test]
fn file_mode_required_field_not_a_string() {
    let text = "{\
        \"country\": 7,\
        \"state_or_province\": \"CA\",\
        \"locality\": \"SF\",\
        \"org_name\": \"Acme\",\
        \"common_name\": \"acme.test\"\
    }";
    assert!(matches!(
        CSRConfig::from_json_text(text),
        Err(ConfigError::MissingField)
    ));
}

#[test]
fn file_mode_empty_required_field_rejected() {
    let text = "{\
        \"country\": \"\",\
        \"state_or_province\": \"CA\",\
        \"locality\": \"SF\",\
        \"org_name\": \"Acme\",\
        \"common_name\": \"acme.test\"\
    }";
    assert!(matches!(
        CSRConfig::from_json_text(text),
        Err(ConfigError::MissingField)
    ));
}

#[test]
fn file_mode_malformed_text() {
    let result = CSRConfig::from_json_text("this is not json");
    match result {
        Err(ConfigError::MalformedFile(message)) => assert!(!message.is_empty()),
        _ => panic!("malformed text must fail with the decoder's message"),
    }
}

#[test]
fn file_mode_not_an_object() {
    assert!(matches!(
        CSRConfig::from_json_text("[1, 2, 3]"),
        Err(ConfigError::MissingField)
    ));
}

#[test]
fn file_mode_resolution_from_decoded_value() {
    let value: serde_json::Value = serde_json::from_str(FULL_DOCUMENT).unwrap();
    let config = CSRConfig::resolve_from_value(&value).unwrap();
    assert_eq!(config.common_name, "acme.test");
    assert_eq!(config.password, Some("secret".to_string()));
}
