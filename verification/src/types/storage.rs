//! Secret storage configuration.

use vstd::prelude::*;

verus! {

/// Where the storage encryption key comes from.
#[derive(Debug, Clone, Copy, PartialEq, Eq, Hash, Structural)]
pub enum StorageKeySource {
    SecretService,
    File,
}

impl StorageKeySource {
    /// The variant a missing setting takes.
    pub open spec fn spec_default() -> StorageKeySource {
        StorageKeySource::SecretService
    }
}

impl Default for StorageKeySource {
    fn default() -> (r: Self)
        ensures
            r == StorageKeySource::SecretService,
    {
        StorageKeySource::SecretService
    }
}

/// Secret storage configuration.
#[derive(Debug, Clone, PartialEq, Eq)]
pub struct StorageConfig {
    pub key_source: StorageKeySource,
    pub key_file: String,
}

impl StorageConfig {
    /// Every field holds its default value.
    pub open spec fn has_default_values(&self) -> bool {
        &&& self.key_source == StorageKeySource::spec_default()
        &&& self.key_file@.len() == 0
    }
}

impl Default for StorageConfig {
    fn default() -> (r: Self)
        ensures
            r.has_default_values(),
    {
        StorageConfig {
            key_source: StorageKeySource::default(),
            key_file: String::new(),
        }
    }
}

} // verus!
