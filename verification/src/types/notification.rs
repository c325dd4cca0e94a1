//! Notification filter configuration.

use vstd::prelude::*;

verus! {

/// A notification filter: which notifications it matches and what happens to them.
#[derive(Debug, Clone, PartialEq, Eq)]
pub struct NotificationFilterConfig {
    /// Table key in `[notification.filter.<name>]`.
    pub name: String,
    pub enabled: bool,
    pub match_: String,
    pub match_content: String,
    pub show_toast: bool,
    pub save_history: bool,
    pub play_sound: bool,
    pub allow_permanent: bool,
    pub override_duration: Option<i32>,
    pub allowed_urgencies: Vec<String>,
}

impl NotificationFilterConfig {
    /// Every field holds its default value.
    pub open spec fn has_default_values(&self) -> bool {
        &&& self.name@.len() == 0
        &&& self.enabled
        &&& self.match_@.len() == 0
        &&& self.match_content@.len() == 0
        &&& self.show_toast
        &&& self.save_history
        &&& self.play_sound
        &&& self.allow_permanent
        &&& self.override_duration is None
        &&& self.allowed_urgencies@.len() == 0
    }
}

impl Default for NotificationFilterConfig {
    fn default() -> (r: Self)
        ensures
            r.has_default_values(),
    {
        NotificationFilterConfig {
            name: String::new(),
            enabled: true,
            match_: String::new(),
            match_content: String::new(),
            show_toast: true,
            save_history: true,
            play_sound: true,
            allow_permanent: true,
            override_duration: None,
            allowed_urgencies: Vec::new(),
        }
    }
}

} // verus!
