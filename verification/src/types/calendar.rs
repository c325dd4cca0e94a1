//! Calendar account configuration.

use vstd::prelude::*;

verus! {

/// Where a calendar account's password comes from.
#[derive(Debug, Clone, Copy, PartialEq, Eq, Hash, Structural)]
pub enum CalendarCredentialSource {
    SecretService,
    File,
}

impl CalendarCredentialSource {
    /// The variant a missing setting takes.
    pub open spec fn spec_default() -> CalendarCredentialSource {
        CalendarCredentialSource::SecretService
    }
}

impl Default for CalendarCredentialSource {
    fn default() -> (r: Self)
        ensures
            r == CalendarCredentialSource::SecretService,
    {
        CalendarCredentialSource::SecretService
    }
}

/// One CalDAV calendar account.
#[derive(Debug, Clone, PartialEq, Eq)]
pub struct CalendarAccountConfig {
    /// Table key in `[calendar.account.<id>]`.
    pub id: String,
    pub type_: String,
    pub display_name: String,
    pub color: String,
    pub provider: String,
    pub server_url: String,
    pub username: String,
    pub calendars: Vec<String>,
    pub credential_source: CalendarCredentialSource,
    pub password_file: String,
}

impl CalendarAccountConfig {
    /// Every field holds its default value.
    pub open spec fn has_default_values(&self) -> bool {
        &&& self.id@.len() == 0
        &&& self.type_@.len() == 0
        &&& self.display_name@.len() == 0
        &&& self.color@.len() == 0
        &&& self.provider@.len() == 0
        &&& self.server_url@.len() == 0
        &&& self.username@.len() == 0
        &&& self.calendars@.len() == 0
        &&& self.credential_source == CalendarCredentialSource::spec_default()
        &&& self.password_file@.len() == 0
    }
}

impl Default for CalendarAccountConfig {
    fn default() -> (r: Self)
        ensures
            r.has_default_values(),
    {
        CalendarAccountConfig {
            id: String::new(),
            type_: String::new(),
            display_name: String::new(),
            color: String::new(),
            provider: String::new(),
            server_url: String::new(),
            username: String::new(),
            calendars: Vec::new(),
            credential_source: CalendarCredentialSource::default(),
            password_file: String::new(),
        }
    }
}

/// Calendar configuration.
#[derive(Debug, Clone, PartialEq, Eq)]
pub struct CalendarConfig {
    pub enabled: bool,
    pub refresh_minutes: i32,
    /// Filled from the `[calendar.account.<id>]` tables.
    pub accounts: Vec<CalendarAccountConfig>,
}

impl CalendarConfig {
    /// Every field holds its default value.
    pub open spec fn has_default_values(&self) -> bool {
        &&& !self.enabled
        &&& self.refresh_minutes == 15
        &&& self.accounts@.len() == 0
    }
}

impl Default for CalendarConfig {
    fn default() -> (r: Self)
        ensures
            r.has_default_values(),
    {
        CalendarConfig {
            enabled: false,
            refresh_minutes: 15,
            accounts: Vec::new(),
        }
    }
}

} // verus!
