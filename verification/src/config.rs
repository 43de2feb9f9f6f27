//! The settings of the player.

use vstd::prelude::*;

verus! {

/// The bit pattern of the single-precision number 1.0.
pub const FULL_VOLUME: u32 = 0x3f80_0000;

/// What a user can set.
#[derive(Debug, PartialEq, Eq)]
pub struct AppSettings {
    /// The controller to use, by vendor and product.
    pub bluetooth_adapter: Option<(u16, u16)>,
    /// The bit pattern of a single-precision number.
    pub volume_multiplier: u32,
    pub hci_dump_enabled: bool,
    pub log_level: String,
}

impl AppSettings {
    /// Whether these are the settings of a user who set nothing.
    pub open spec fn is_default(self) -> bool {
        &&& self.bluetooth_adapter is None
        &&& self.volume_multiplier == FULL_VOLUME
        &&& !self.hci_dump_enabled
        &&& self.log_level@ == "info"@
    }

    /// Takes the settings that are stored. Where none are, the defaults hold, and are given a
    /// second time to be stored.
    pub fn load(stored: Option<AppSettings>) -> (r: (Self, Option<AppSettings>))
        ensures
            match stored {
                Some(settings) => r.0 == settings && r.1 is None,
                None => {
                    &&& r.0.is_default()
                    &&& r.1 matches Some(to_store) && to_store.is_default()
                },
            },
    {
        match stored {
            Some(settings) => (settings, None),
            None => (AppSettings::default(), Some(AppSettings::default())),
        }
    }
}

impl Clone for AppSettings {
    fn clone(&self) -> (s: Self)
        ensures
            s == *self,
    {
        AppSettings {
            bluetooth_adapter: self.bluetooth_adapter,
            volume_multiplier: self.volume_multiplier,
            hci_dump_enabled: self.hci_dump_enabled,
            log_level: self.log_level.clone(),
        }
    }
}

impl Default for AppSettings {
    fn default() -> (s: Self)
        ensures
            s.is_default(),
    {
        AppSettings {
            bluetooth_adapter: None,
            volume_multiplier: FULL_VOLUME,
            hci_dump_enabled: false,
            log_level: "info".to_owned(),
        }
    }
}

}
