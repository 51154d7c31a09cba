//! Secrets: settings hold a reference to a secret, never the secret.

use vstd::prelude::*;
use vstd::string::*;

verus! {

/// The key under which a secret is stored.
#[derive(Debug, Clone, PartialEq, Eq, Hash)]
pub struct SecretRef(String);

impl SecretRef {
    /// The key as text.
    pub closed spec fn text(self) -> Seq<char> {
        self.0@
    }

    /// The given key.
    #[must_use]
    pub fn new(key: &str) -> (res: Self)
        ensures
            res.text() == key@,
    {
        Self(key.to_owned())
    }

    /// The key of a provider's API key.
    #[must_use]
    pub fn provider_api_key(provider_id: &str) -> (res: Self)
        ensures
            res.text() == "openspace.provider."@ + provider_id@ + ".api_key"@,
    {
        Self("openspace.provider.".to_owned().concat(provider_id).concat(".api_key"))
    }

    /// The key as text.
    #[must_use]
    pub fn as_str(&self) -> (res: &str)
        ensures
            res@ == self.text(),
    {
        self.0.as_str()
    }
}

/// Why a secret store failed.
#[derive(Debug, Clone, PartialEq, Eq)]
#[non_exhaustive]
pub enum SecretError {
    /// The platform's store failed.
    Backend(String),
}

impl SecretError {
    /// The message shown for the error.
    pub open spec fn message(self) -> Seq<char> {
        match self {
            SecretError::Backend(m) => "secret store backend error: "@ + m@,
        }
    }

    /// The message shown for the error.
    pub fn to_string(&self) -> (res: String)
        ensures
            res@ == self.message(),
    {
        match self {
            SecretError::Backend(m) => "secret store backend error: ".to_owned().concat(m.as_str()),
        }
    }
}

/// A store of secrets, such as the platform's keychain.
pub trait SecretStore: Send + Sync {
    /// Stores `value` under `key`, in place of what was there.
    fn set(&self, key: &str, value: &str) -> Result<(), SecretError>;

    /// What is stored under `key`, if anything.
    fn get(&self, key: &str) -> Result<Option<String>, SecretError>;

    /// Removes what is stored under `key`; no error where there is nothing.
    fn delete(&self, key: &str) -> Result<(), SecretError>;

    /// The keys that something is stored under.
    fn list_keys(&self) -> Result<Vec<String>, SecretError>;
}

} // verus!
