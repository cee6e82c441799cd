use chat2db_storage::identity::{fresh_id, fresh_ids};
use chat2db_storage::secret::is_same_reference;
use chat2db_storage::{SecretChange, SecretRef, SecretValue, SecretVaultError, StorageError};

#[test]
fn debug_output_never_exposes_secret_bytes() {
    let value = SecretValue::new(b"sentinel-password".to_vec());
    let debug = value.debug_text();

    assert_eq!(debug, "SecretValue([REDACTED])");
    assert!(!debug.contains("sentinel-password"));
}

#[test]
fn persisted_references_require_a_canonical_uuid() {
    let uuid = uuid::Uuid::new_v4();
    let canonical = format!("chat2db:datasource:{uuid}");
    assert!(SecretRef::from_persisted(canonical).is_ok());

    for invalid in [
        "chat2db:datasource:../../master-key".to_owned(),
        "chat2db:datasource:not-a-uuid".to_owned(),
        format!("chat2db:datasource:{}", uuid.simple()),
        format!("chat2db:datasource:{{{uuid}}}"),
    ] {
        assert!(SecretRef::from_persisted(invalid).is_err());
    }
}

#[test]
fn refused_references_name_the_violated_rule() {
    let upper = "chat2db:datasource:8DF08CAC-24E7-446D-92EA-CDA948EC9184".to_owned();
    assert!(matches!(
        SecretRef::from_persisted(upper),
        Err(StorageError::InvalidDatasource("persisted secret reference is invalid"))
    ));
    assert!(SecretRef::from_persisted("8df08cac-24e7-446d-92ea-cda948ec9184".to_owned()).is_err());
    assert!(SecretRef::from_persisted(String::new()).is_err());
}

#[test]
fn a_persisted_reference_keeps_its_key_and_its_uuid() {
    let key = "chat2db:datasource:8df08cac-24e7-446d-92ea-cda948ec9184";
    let reference = SecretRef::from_persisted(key.to_owned()).expect("reference reads");
    assert_eq!(reference.as_str(), key);
    assert_eq!(
        reference.validated_uuid().as_deref(),
        Some("8df08cac-24e7-446d-92ea-cda948ec9184")
    );
    assert_eq!(format!("{reference:?}"), format!("SecretRef({key:?})"));
}

#[test]
fn generated_references_are_distinct_and_read_back() {
    let first = SecretRef::generate();
    let second = SecretRef::generate();
    assert_ne!(first, second);
    let read = SecretRef::from_persisted(first.as_str().to_owned()).expect("reference reads");
    assert_eq!(read, first);
    assert!(is_same_reference(&Some(read), &Some(first.clone())));
    assert!(!is_same_reference(&Some(first), &Some(second)));
    assert!(is_same_reference(&None, &None));
}

#[test]
fn secret_bytes_are_exposed_unchanged() {
    let value = SecretValue::new(vec![0, 1, 254, 255]);
    assert_eq!(value.expose_secret(), &[0, 1, 254, 255]);
    drop(value);
}

#[test]
fn secret_changes_are_described_without_the_secret() {
    let change = SecretChange::Replace(SecretValue::new(b"sentinel-password".to_vec()));
    assert_eq!(change.debug_text(), "Replace([REDACTED])");
    assert_eq!(SecretChange::Keep.debug_text(), "Keep");
    assert_eq!(SecretChange::Clear.debug_text(), "Clear");
}

#[test]
fn vault_failures_have_safe_messages() {
    assert_eq!(
        SecretVaultError::InvalidConfiguration.message(),
        "vault configuration is invalid"
    );
    assert_eq!(SecretVaultError::Unavailable.message(), "vault unavailable");
    assert_eq!(SecretVaultError::AccessDenied.message(), "vault access denied");
    assert_eq!(SecretVaultError::Backend.message(), "vault backend failure");
}

#[test]
fn fresh_ids_are_canonical_uuids() {
    let id = fresh_id();
    let parsed = uuid::Uuid::parse_str(&id).expect("id parses");
    assert_eq!(parsed.hyphenated().to_string(), id);
    assert_eq!(parsed.get_version_num(), 4);
    let ids = fresh_ids(3);
    assert_eq!(ids.len(), 3);
    assert_ne!(ids[0], ids[1]);
    assert_ne!(ids[1], ids[2]);
    assert!(fresh_ids(0).is_empty());
}
