use komodo_core::connection::{
    optional_str, server_auth_query, AwsBuilderConfig, PeripheryConnectionArgs, PublicKeyError, ServerConnectionConfig,
    UrlBuilderConfig,
};
use komodo_core::validations::{
    validate_api_key_name, validate_password, validate_username, validate_variable_name, validate_variable_value,
    ValidationError,
};

fn server(address: &str, key: &str) -> ServerConnectionConfig {
    ServerConnectionConfig {
        id: "srv1".to_string(),
        address: address.to_string(),
        public_key: key.to_string(),
        passkey: String::new(),
    }
}

#[test]
fn optional_str_cases() {
    assert_eq!(optional_str(""), None);
    assert_eq!(optional_str("a"), Some("a"));
}

#[test]
fn args_from_server_read_empty_as_unset() {
    let cfg = server("", "KEY");
    let args = PeripheryConnectionArgs::from_server(&cfg);
    assert_eq!(args.id, "srv1");
    assert_eq!(args.address, None);
    assert_eq!(args.periphery_public_key(), Some("KEY"));
    assert_eq!(args.passkey(), None);
}

#[test]
fn args_from_builders() {
    let url = UrlBuilderConfig {
        address: "https://p:8120".to_string(),
        periphery_public_key: String::new(),
        passkey: "pk".to_string(),
    };
    let a = PeripheryConnectionArgs::from_url_builder("b1", &url);
    assert_eq!(a.address, Some("https://p:8120"));
    assert_eq!(a.periphery_public_key(), None);
    assert_eq!(a.passkey(), Some("pk"));
    let aws = AwsBuilderConfig { periphery_public_key: "K".to_string() };
    let b = PeripheryConnectionArgs::from_aws_builder("b2", "10.0.0.1", &aws);
    assert_eq!(b.address, Some("10.0.0.1"));
    assert_eq!(b.periphery_public_key(), Some("K"));
    assert_eq!(b.passkey(), None);
}

#[test]
fn owned_round_trip_matches() {
    let cfg = server("addr", "KEY");
    let args = PeripheryConnectionArgs::from_server(&cfg);
    let owned = args.to_owned();
    assert_eq!(owned.id, "srv1");
    assert_eq!(owned.address.as_deref(), Some("addr"));
    assert!(args.matches(owned.borrow()));
    let other = server("addr", "OTHER");
    assert!(!args.matches(PeripheryConnectionArgs::from_server(&other)));
}

#[test]
fn public_key_validation() {
    // An expected key decides.
    let cfg = server("", "KEY");
    let args = PeripheryConnectionArgs::from_server(&cfg);
    assert_eq!(args.validate("KEY".to_string(), None), Ok("KEY".to_string()));
    assert_eq!(args.validate("BAD".to_string(), None), Err(PublicKeyError::Invalid));
    // Core -> Periphery without an expected key: not validated.
    let out = server("addr", "");
    let args = PeripheryConnectionArgs::from_server(&out);
    assert_eq!(args.validate("ANY".to_string(), None), Ok("ANY".to_string()));
    // Periphery -> Core without an expected key: the configured keys decide.
    let inbound = server("", "");
    let args = PeripheryConnectionArgs::from_server(&inbound);
    assert_eq!(args.validate("X".to_string(), None), Err(PublicKeyError::Invalid));
    let keys = vec!["A".to_string(), "X".to_string()];
    assert_eq!(args.validate("X".to_string(), Some(&keys)), Ok("X".to_string()));
    assert_eq!(args.validate("Y".to_string(), Some(&keys)), Err(PublicKeyError::Invalid));
}

#[test]
fn auth_query_url_encodes() {
    assert_eq!(server_auth_query("my-server_1.a~"), "server=my-server_1.a~");
    assert_eq!(server_auth_query("a b/c"), "server=a%20b%2Fc");
    assert_eq!(server_auth_query("é"), "server=%C3%A9");
}

#[test]
fn username_validation() {
    assert!(validate_username("admin@example.com").is_ok());
    assert!(matches!(validate_username(""), Err(ValidationError::Username(_))));
    assert!(matches!(validate_username("bad name"), Err(ValidationError::Username(_))));
    assert!(matches!(validate_username(&"a".repeat(101)), Err(ValidationError::Username(_))));
    assert!(validate_username(&"a".repeat(100)).is_ok());
    // 24 hex digits look like an id.
    assert!(matches!(validate_username("0123456789abcdef01234567"), Err(ValidationError::Username(_))));
    assert!(validate_username("0123456789abcdef0123456g").is_ok());
}

#[test]
fn password_validation() {
    assert!(validate_password("secret", 4).is_ok());
    assert!(matches!(validate_password("abc", 4), Err(ValidationError::Password(_))));
    assert!(matches!(validate_password("with\ncontrol", 1), Err(ValidationError::Password(_))));
    assert!(matches!(validate_password(&"p".repeat(1001), 1), Err(ValidationError::Password(_))));
}

#[test]
fn other_validations() {
    assert!(validate_api_key_name("").is_ok());
    assert!(matches!(validate_api_key_name(&"k".repeat(201)), Err(ValidationError::ApiKeyName(_))));
    assert!(validate_variable_name("_MY_VAR1").is_ok());
    assert!(matches!(validate_variable_name("1VAR"), Err(ValidationError::VariableName(_))));
    assert!(matches!(validate_variable_name(""), Err(ValidationError::VariableName(_))));
    assert!(validate_variable_value("anything goes").is_ok());
    assert!(matches!(validate_variable_value("tab\there"), Err(ValidationError::VariableValue(_))));
    assert!(matches!(validate_variable_value(&"v".repeat(10_001)), Err(ValidationError::VariableValue(_))));
}

#[test]
fn public_key_error_message() {
    assert_eq!(
        PublicKeyError::Invalid.message("abc"),
        "Core failed to validate Periphery public key: Ensure public key matches configured Periphery Public Key: abc is invalid"
    );
}
