use kms_config::config::{
    reconnect_default, DalekConfig, KMSConfig, ProviderConfig, SecretConnectionConfig,
    UNIXConnectionConfig, ValidatorConfig, YubihsmConfig,
};
use kms_config::validate::{ConfigError, ConnectionConfig, ValidatedConfig};

fn seccon(path: &str, addr: &str, port: u16) -> SecretConnectionConfig {
    SecretConnectionConfig {
        secret_key_path: path.to_string(),
        addr: addr.to_string(),
        port,
    }
}

fn unix(path: &str) -> UNIXConnectionConfig {
    UNIXConnectionConfig { socket_path: path.to_string() }
}

fn dalek_only() -> ProviderConfig {
    ProviderConfig { dalek: Some(DalekConfig {}), yubihsm: None }
}

fn no_providers() -> ProviderConfig {
    ProviderConfig { dalek: None, yubihsm: None }
}

fn hsm_only() -> ProviderConfig {
    ProviderConfig {
        dalek: None,
        yubihsm: Some(YubihsmConfig { connectors: vec!["usb".to_string()] }),
    }
}

fn config(validators: Vec<(&str, ValidatorConfig)>, providers: ProviderConfig) -> KMSConfig {
    KMSConfig {
        validators: validators.into_iter().map(|(id, v)| (id.to_string(), v)).collect(),
        providers,
    }
}

fn validated(c: &KMSConfig, hsm: bool) -> ValidatedConfig {
    match c.validate(hsm) {
        Ok(v) => v,
        Err(e) => panic!("unexpected error {:?}", e),
    }
}

#[test]
fn scenario_a_seccon_with_dalek_resolves() {
    let v1 = ValidatorConfig::new(Some(seccon("/k", "1.2.3.4", 26658)), None, None);
    let c = config(vec![("v1", v1)], dalek_only());
    let v = validated(&c, false);
    assert_eq!(v.validators.len(), 1);
    assert_eq!(v.validators[0].id, "v1");
    assert!(v.validators[0].reconnect);
    match &v.validators[0].connection {
        ConnectionConfig::SecretConnection(s) => {
            assert_eq!(s.port, 26658);
            assert_eq!(s.addr, "1.2.3.4");
            assert_eq!(s.secret_key_path, "/k");
        }
        other => panic!("expected a secret connection, got {:?}", other),
    }
}

#[test]
fn scenario_b_both_transports_is_ambiguous() {
    let v1 = ValidatorConfig::new(Some(seccon("/k", "1.2.3.4", 26658)), Some(unix("/tmp/s")), None);
    let c = config(vec![("v1", v1)], dalek_only());
    match c.validate(false) {
        Err(ConfigError::AmbiguousConnectionKind(id)) => assert_eq!(id, "v1"),
        other => panic!("expected an ambiguous connection error, got {:?}", other),
    }
}

#[test]
fn scenario_c_missing_providers_fails() {
    let v1 = ValidatorConfig::new(None, Some(unix("/tmp/s")), None);
    let c = config(vec![("v1", v1)], no_providers());
    assert!(matches!(c.validate(false), Err(ConfigError::NoUsableProvider)));
    assert!(matches!(c.validate(true), Err(ConfigError::NoUsableProvider)));
}

#[test]
fn scenario_d_explicit_reconnect_false_is_kept() {
    let v1 = ValidatorConfig::new(Some(seccon("/k", "1.2.3.4", 26658)), None, Some(false));
    assert!(!v1.reconnect);
    let c = config(vec![("v1", v1)], dalek_only());
    let v = validated(&c, false);
    assert!(!v.validators[0].reconnect);
}

#[test]
fn reconnect_defaults_to_true() {
    assert!(reconnect_default());
    assert!(ValidatorConfig::new(None, Some(unix("/s")), None).reconnect);
    assert!(ValidatorConfig::new(None, Some(unix("/s")), Some(true)).reconnect);
    assert!(!ValidatorConfig::new(None, Some(unix("/s")), Some(false)).reconnect);
}

#[test]
fn neither_transport_is_ambiguous() {
    let c = config(vec![("lonely", ValidatorConfig::new(None, None, None))], dalek_only());
    match c.validate(true) {
        Err(ConfigError::AmbiguousConnectionKind(id)) => assert_eq!(id, "lonely"),
        other => panic!("expected an ambiguous connection error, got {:?}", other),
    }
}

#[test]
fn unix_socket_resolves_to_unix_connection() {
    let v1 = ValidatorConfig::new(None, Some(unix("/tmp/s")), None);
    let c = config(vec![("v1", v1)], dalek_only());
    let v = validated(&c, false);
    match &v.validators[0].connection {
        ConnectionConfig::UNIXConnection(u) => assert_eq!(u.socket_path, "/tmp/s"),
        other => panic!("expected a unix connection, got {:?}", other),
    }
}

#[test]
fn resolve_gives_exactly_one_kind() {
    assert!(matches!(
        ValidatorConfig::new(Some(seccon("/k", "h", 1)), None, None).resolve(),
        Some(ConnectionConfig::SecretConnection(_))
    ));
    assert!(matches!(
        ValidatorConfig::new(None, Some(unix("/s")), None).resolve(),
        Some(ConnectionConfig::UNIXConnection(_))
    ));
    assert!(ValidatorConfig::new(None, None, None).resolve().is_none());
    assert!(ValidatorConfig::new(Some(seccon("/k", "h", 1)), Some(unix("/s")), None)
        .resolve()
        .is_none());
}

#[test]
fn duplicate_identifier_is_rejected() {
    let c = config(
        vec![
            ("v1", ValidatorConfig::new(None, Some(unix("/a")), None)),
            ("v2", ValidatorConfig::new(None, Some(unix("/b")), None)),
            ("v1", ValidatorConfig::new(None, Some(unix("/c")), None)),
        ],
        dalek_only(),
    );
    match c.validate(false) {
        Err(ConfigError::DuplicateValidator(id)) => assert_eq!(id, "v1"),
        other => panic!("expected a duplicate validator error, got {:?}", other),
    }
}

#[test]
fn first_bad_validator_is_reported() {
    let c = config(
        vec![
            ("good", ValidatorConfig::new(None, Some(unix("/a")), None)),
            ("bad1", ValidatorConfig::new(None, None, None)),
            ("bad2", ValidatorConfig::new(None, None, None)),
        ],
        no_providers(),
    );
    match c.validate(false) {
        Err(ConfigError::AmbiguousConnectionKind(id)) => assert_eq!(id, "bad1"),
        other => panic!("expected an ambiguous connection error, got {:?}", other),
    }
}

#[test]
fn empty_validators_are_accepted() {
    let c = config(vec![], dalek_only());
    let v = validated(&c, false);
    assert!(v.validators.is_empty());
    assert!(v.providers.dalek.is_some());
}

#[test]
fn hardware_provider_needs_capability() {
    let c = config(vec![("v1", ValidatorConfig::new(None, Some(unix("/s")), None))], hsm_only());
    assert!(matches!(c.validate(false), Err(ConfigError::NoUsableProvider)));
    let v = validated(&c, true);
    assert_eq!(v.providers.yubihsm.as_ref().unwrap().connectors, vec!["usb".to_string()]);
    assert!(v.providers.dalek.is_none());
}

#[test]
fn unavailable_hardware_provider_is_ignored() {
    let providers = ProviderConfig {
        dalek: Some(DalekConfig {}),
        yubihsm: Some(YubihsmConfig { connectors: vec!["usb".to_string()] }),
    };
    assert!(!no_providers().is_usable(true));
    assert!(providers.is_usable(false));
    assert!(hsm_only().is_usable(true));
    assert!(!hsm_only().is_usable(false));
    let c = config(vec![], providers);
    let without = validated(&c, false);
    assert!(without.providers.dalek.is_some());
    assert!(without.providers.yubihsm.is_none());
    let with = validated(&c, true);
    assert!(with.providers.yubihsm.is_some());
}

#[test]
fn round_trip_keeps_the_model() {
    let c = config(
        vec![
            ("remote", ValidatorConfig::new(Some(seccon("/k", "10.0.0.1", 26658)), None, Some(false))),
            ("local", ValidatorConfig::new(None, Some(unix("/tmp/s")), None)),
        ],
        dalek_only(),
    );
    let v = validated(&c, false);
    let raw = v.to_raw();
    assert_eq!(raw.validators.len(), 2);
    assert_eq!(raw.validators[0].0, "remote");
    assert!(raw.validators[0].1.seccon.is_some());
    assert!(raw.validators[0].1.unix.is_none());
    assert!(!raw.validators[0].1.reconnect);
    assert_eq!(raw.validators[1].1.unix.as_ref().unwrap().socket_path, "/tmp/s");
    assert!(raw.validators[1].1.seccon.is_none());
    let again = validated(&raw, false);
    assert_eq!(again.validators.len(), 2);
    assert_eq!(again.validators[0].id, "remote");
    assert!(!again.validators[0].reconnect);
    match &again.validators[0].connection {
        ConnectionConfig::SecretConnection(s) => {
            assert_eq!(s.addr, "10.0.0.1");
            assert_eq!(s.port, 26658);
        }
        other => panic!("expected a secret connection, got {:?}", other),
    }
    assert_eq!(again.validators[1].id, "local");
    assert!(again.validators[1].reconnect);
    assert!(matches!(again.validators[1].connection, ConnectionConfig::UNIXConnection(_)));
    assert!(again.providers.dalek.is_some());
}

#[test]
fn copies_are_equal() {
    let s = seccon("/k", "h", 7).duplicate();
    assert_eq!((s.secret_key_path.as_str(), s.addr.as_str(), s.port), ("/k", "h", 7));
    assert_eq!(unix("/u").duplicate().socket_path, "/u");
    let y = YubihsmConfig { connectors: vec!["a".to_string(), "b".to_string()] }.duplicate();
    assert_eq!(y.connectors, vec!["a".to_string(), "b".to_string()]);
    let p = hsm_only().usable(false);
    assert!(p.yubihsm.is_none());
}

#[test]
fn provider_copy_keeps_both_signers() {
    let p = ProviderConfig {
        dalek: Some(DalekConfig {}),
        yubihsm: Some(YubihsmConfig { connectors: vec!["usb".to_string()] }),
    }
    .duplicate();
    assert!(p.dalek.is_some());
    assert_eq!(p.yubihsm.unwrap().connectors, vec!["usb".to_string()]);
    assert_eq!(kms_config::config::CONFIG_FILE_NAME, "kms.toml");
}
