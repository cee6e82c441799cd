use vstd::prelude::*;
use zeroize::Zeroize;

use crate::error::StorageError;
use crate::identity::{canonical_uuid, fresh_id, parse_uuid};
use crate::text::{same_text, strip_prefix};

verus! {

/// Opaque reference persisted in place of secret material.
#[derive(Debug, PartialEq, Eq, Hash)]
pub struct SecretRef(String);

/// A vault key names a datasource secret by a canonical UUID.
pub open spec fn is_reference(text: Seq<char>) -> bool {
    &&& "chat2db:datasource:"@.is_prefix_of(text)
    &&& canonical_uuid(text.skip("chat2db:datasource:"@.len() as int))
}

/// The UUID in a vault key.
pub open spec fn reference_uuid(text: Seq<char>) -> Seq<char> {
    text.skip("chat2db:datasource:"@.len() as int)
}

/// Reads the UUID in a vault key, if the key is well formed.
fn parse_canonical_uuid(value: &str) -> (result: Option<String>)
    ensures
        match result {
            Some(uuid) => is_reference(value@) && uuid@ == reference_uuid(value@),
            None => !is_reference(value@),
        },
{
    let encoded = match strip_prefix(value, "chat2db:datasource:") {
        Some(encoded) => encoded,
        None => return None,
    };
    match parse_uuid(encoded) {
        Some(uuid) => if same_text(uuid.as_str(), encoded) {
            Some(uuid)
        } else {
            None
        },
        None => None,
    }
}

impl SecretRef {
    /// The vault key.
    pub closed spec fn key(self) -> String {
        self.0
    }

    #[verifier::type_invariant]
    spec fn well_formed(self) -> bool {
        is_reference(self.0@)
    }

    /// Makes the reference of a new secret.
    pub fn generate() -> (result: SecretRef)
        ensures
            is_reference(result.key()@),
    {
        let uuid = fresh_id();
        let mut key = String::new();
        key.append("chat2db:datasource:");
        key.append(uuid.as_str());
        assert(key@.skip("chat2db:datasource:"@.len() as int) =~= uuid@);
        SecretRef(key)
    }

    /// Reads a persisted reference.
    pub fn from_persisted(value: String) -> (result: Result<SecretRef, StorageError>)
        ensures
            match result {
                Ok(reference) => is_reference(value@) && reference.key() == value,
                Err(error) => !is_reference(value@) && error == StorageError::InvalidDatasource(
                    "persisted secret reference is invalid",
                ),
            },
    {
        if parse_canonical_uuid(value.as_str()).is_none() {
            return Err(StorageError::InvalidDatasource("persisted secret reference is invalid"));
        }
        Ok(SecretRef(value))
    }

    /// Returns the UUID in the vault key.
    pub fn validated_uuid(&self) -> (result: Option<String>)
        ensures
            result matches Some(uuid) && uuid@ == reference_uuid(self.key()@) && canonical_uuid(
                uuid@,
            ),
    {
        proof {
            use_type_invariant(self);
        }
        parse_canonical_uuid(self.0.as_str())
    }

    /// Returns the non-secret vault lookup key.
    pub fn as_str(&self) -> (result: &str)
        ensures
            result@ == self.key()@,
            is_reference(result@),
    {
        proof {
            use_type_invariant(self);
        }
        self.0.as_str()
    }
}

impl Clone for SecretRef {
    fn clone(&self) -> (result: SecretRef)
        ensures
            result == *self,
    {
        proof {
            use_type_invariant(self);
        }
        SecretRef(self.0.clone())
    }
}

/// Both absent, or both present with the same key.
pub open spec fn same_reference(left: Option<SecretRef>, right: Option<SecretRef>) -> bool {
    match (left, right) {
        (None, None) => true,
        (Some(a), Some(b)) => a.key()@ == b.key()@,
        _ => false,
    }
}

/// Tests whether two optional references are the same.
pub fn is_same_reference(left: &Option<SecretRef>, right: &Option<SecretRef>) -> (result: bool)
    ensures
        result == same_reference(*left, *right),
{
    match (left, right) {
        (None, None) => true,
        (Some(a), Some(b)) => same_text(a.as_str(), b.as_str()),
        _ => false,
    }
}

/// Secret bytes that are zeroed when their owner is dropped.
pub struct SecretValue(Vec<u8>);

/// `Zeroize::zeroize` on a byte vector overwrites the bytes with zeros and empties the vector.
#[verifier::external_body]
fn wipe(bytes: &mut Vec<u8>)
    ensures
        final(bytes)@.len() == 0,
    opens_invariants none
    no_unwind
{
    bytes.zeroize();
}

impl SecretValue {
    /// The secret bytes.
    pub closed spec fn bytes(self) -> Seq<u8> {
        self.0@
    }

    /// Takes ownership of secret bytes.
    pub fn new(bytes: Vec<u8>) -> (result: SecretValue)
        ensures
            result.bytes() == bytes@,
    {
        SecretValue(bytes)
    }

    /// Exposes the bytes only at the vault or session-opening boundary.
    pub fn expose_secret(&self) -> (result: &[u8])
        ensures
            result@ == self.bytes(),
    {
        self.0.as_slice()
    }

    /// Describes the value without its bytes.
    pub fn debug_text(&self) -> (result: String)
        ensures
            result@ == "SecretValue([REDACTED])"@,
    {
        "SecretValue([REDACTED])".to_owned()
    }
}

impl Drop for SecretValue {
    fn drop(&mut self)
        opens_invariants none
        no_unwind
    {
        wipe(&mut self.0);
    }
}

/// Safe, non-secret error classifications returned by a credential vault.
#[derive(Debug, Clone, Copy, PartialEq, Eq, Structural)]
pub enum SecretVaultError {
    /// A configured master key or vault identifier is malformed.
    InvalidConfiguration,
    /// The platform credential store is not available.
    Unavailable,
    /// The operating system denied credential access.
    AccessDenied,
    /// The vault rejected or could not persist the value.
    Backend,
}

impl SecretVaultError {
    /// The text shown for a classification.
    pub open spec fn text(self) -> &'static str {
        match self {
            SecretVaultError::InvalidConfiguration => "vault configuration is invalid",
            SecretVaultError::Unavailable => "vault unavailable",
            SecretVaultError::AccessDenied => "vault access denied",
            SecretVaultError::Backend => "vault backend failure",
        }
    }

    /// Returns the text shown for a classification.
    pub fn message(self) -> (result: &'static str)
        ensures
            result == self.text(),
    {
        match self {
            SecretVaultError::InvalidConfiguration => "vault configuration is invalid",
            SecretVaultError::Unavailable => "vault unavailable",
            SecretVaultError::AccessDenied => "vault access denied",
            SecretVaultError::Backend => "vault backend failure",
        }
    }
}

/// External credential-store boundary. Implementations must never log values.
pub trait SecretVault: Send + Sync {
    /// Verifies that this vault can serve the storage instance.
    fn probe(&self) -> Result<(), SecretVaultError>;

    /// Creates one immutable secret under a fresh opaque reference.
    fn create(&self, reference: &SecretRef, value: &SecretValue) -> Result<(), SecretVaultError>;

    /// Loads one secret into zeroizing memory.
    fn get(&self, reference: &SecretRef) -> Result<Option<SecretValue>, SecretVaultError>;

    /// Idempotently removes one secret.
    fn delete(&self, reference: &SecretRef) -> Result<(), SecretVaultError>;
}

/// A reference that was made here reads back as itself.
pub proof fn law_reference_round_trip(text: Seq<char>)
    requires
        is_reference(text),
    ensures
        "chat2db:datasource:"@ + reference_uuid(text) == text,
        canonical_uuid(reference_uuid(text)),
{
    assert("chat2db:datasource:"@ + reference_uuid(text) =~= text);
}

/// A reference is the prefix of vault keys and a canonical UUID, and nothing else is one.
pub proof fn law_reference_is_prefix_and_uuid(uuid: Seq<char>, text: Seq<char>)
    ensures
        canonical_uuid(uuid) ==> is_reference("chat2db:datasource:"@ + uuid),
        is_reference(text) ==> text == "chat2db:datasource:"@ + reference_uuid(text),
        is_reference(text) ==> canonical_uuid(reference_uuid(text)),
{
    let whole = "chat2db:datasource:"@ + uuid;
    assert(whole.skip("chat2db:datasource:"@.len() as int) =~= uuid);
    assert(whole.take("chat2db:datasource:"@.len() as int) =~= "chat2db:datasource:"@);
    if is_reference(text) {
        assert("chat2db:datasource:"@ + reference_uuid(text) =~= text);
    }
}

/// Each failure of the vault has a text of its own, without anything of the secret.
pub proof fn law_vault_failures_have_their_texts()
    ensures
        SecretVaultError::InvalidConfiguration.text()@ == "vault configuration is invalid"@,
        SecretVaultError::Unavailable.text()@ == "vault unavailable"@,
        SecretVaultError::AccessDenied.text()@ == "vault access denied"@,
        SecretVaultError::Backend.text()@ == "vault backend failure"@,
{
}

/// Two optional references are the same exactly if both are absent or both have the same key.
pub proof fn law_same_references_have_the_same_key(
    left: Option<SecretRef>,
    right: Option<SecretRef>,
)
    ensures
        same_reference(left, right) <==> (left is None && right is None) || (left is Some && right
            is Some && left->0.key()@ == right->0.key()@),
{
}

} // verus!
