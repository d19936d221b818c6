//! User settings: their defaults and the rules a changed value must meet.

use vstd::prelude::*;
use vstd::string::*;
use crate::text::same_text;

verus! {

/// Notification preferences.
#[derive(Debug, Clone, Copy, PartialEq, Eq, Structural)]
pub struct NotificationSettings {
    pub enabled: bool,
    pub sound: bool,
    pub desktop: bool,
    pub email: bool,
    pub polling_interval: i32,
}

/// Display preferences.
#[derive(Debug, Clone)]
pub struct DisplaySettings {
    pub density: String,
    pub font_size: i32,
    pub show_animations: bool,
    pub auto_refresh: bool,
    pub refresh_interval: i32,
}

/// Security preferences.
#[derive(Debug, Clone, Copy, PartialEq, Eq, Structural)]
pub struct SecuritySettings {
    pub auto_lock: bool,
    pub lock_timeout: i32,
    pub require_password: bool,
    pub session_timeout: i32,
}

/// Data handling preferences.
#[derive(Debug, Clone, Copy, PartialEq, Eq, Structural)]
pub struct DataSettings {
    pub auto_save: bool,
    pub save_interval: i32,
    pub max_history_items: i32,
    pub clear_cache_on_exit: bool,
}

/// All settings of a user.
#[derive(Debug, Clone)]
pub struct Settings {
    pub theme: String,
    pub notifications: NotificationSettings,
    pub display: DisplaySettings,
    pub security: SecuritySettings,
    pub data: DataSettings,
}

/// Smallest and largest font size accepted.
pub const MIN_FONT_SIZE: i32 = 10;

pub const MAX_FONT_SIZE: i32 = 24;

/// Shortest and longest notification polling interval accepted, in seconds.
pub const MIN_POLLING_INTERVAL: i32 = 10;

pub const MAX_POLLING_INTERVAL: i32 = 300;

impl Settings {
    /// True of the settings a fresh installation starts with.
    pub open spec fn is_default(&self) -> bool {
        &&& self.theme@ == "system"@
        &&& self.notifications == NotificationSettings {
            enabled: true,
            sound: true,
            desktop: true,
            email: false,
            polling_interval: 30,
        }
        &&& self.display.density@ == "comfortable"@
        &&& self.display.font_size == 14
        &&& self.display.show_animations
        &&& self.display.auto_refresh
        &&& self.display.refresh_interval == 60
        &&& self.security == SecuritySettings {
            auto_lock: false,
            lock_timeout: 30,
            require_password: true,
            session_timeout: 1440,
        }
        &&& self.data == DataSettings {
            auto_save: true,
            save_interval: 5,
            max_history_items: 100,
            clear_cache_on_exit: false,
        }
    }

    /// The stored settings when there are any, the defaults otherwise.
    pub fn stored_or_default(stored: Option<Settings>) -> (settings: Settings)
        ensures
            match stored {
                Some(s) => settings == s,
                None => settings.is_default(),
            },
    {
        match stored {
            Some(s) => s,
            None => Settings::default(),
        }
    }
}

impl Default for Settings {
    fn default() -> (settings: Settings)
        ensures
            settings.is_default(),
    {
        Settings {
            theme: String::from_str("system"),
            notifications: NotificationSettings {
                enabled: true,
                sound: true,
                desktop: true,
                email: false,
                polling_interval: 30,
            },
            display: DisplaySettings {
                density: String::from_str("comfortable"),
                font_size: 14,
                show_animations: true,
                auto_refresh: true,
                refresh_interval: 60,
            },
            security: SecuritySettings {
                auto_lock: false,
                lock_timeout: 30,
                require_password: true,
                session_timeout: 1440,
            },
            data: DataSettings {
                auto_save: true,
                save_interval: 5,
                max_history_items: 100,
                clear_cache_on_exit: false,
            },
        }
    }
}

/// True for the font sizes accepted: 10 to 24.
pub open spec fn font_size_ok(font_size: i32) -> bool {
    MIN_FONT_SIZE <= font_size <= MAX_FONT_SIZE
}

/// True for the display densities accepted.
pub open spec fn density_ok(density: Seq<char>) -> bool {
    density == "compact"@ || density == "comfortable"@ || density == "spacious"@
}

/// True for the polling intervals accepted: 10 to 300 seconds.
pub open spec fn polling_interval_ok(interval: i32) -> bool {
    MIN_POLLING_INTERVAL <= interval <= MAX_POLLING_INTERVAL
}

/// Accepts a font size from 10 to 24 and rejects any other with a message.
pub fn apply_font_size(font_size: i32) -> (result: Result<(), String>)
    ensures
        result is Ok <==> font_size_ok(font_size),
        result matches Err(message) ==> message@ == "Font size must be between 10 and 24"@,
{
    if font_size < MIN_FONT_SIZE || font_size > MAX_FONT_SIZE {
        Err(String::from_str("Font size must be between 10 and 24"))
    } else {
        Ok(())
    }
}

/// Accepts `compact`, `comfortable` and `spacious` and rejects any other
/// density with a message.
pub fn apply_display_density(density: &str) -> (result: Result<(), String>)
    ensures
        result is Ok <==> density_ok(density@),
        result matches Err(message) ==> message@ == "Invalid density option"@,
{
    if same_text(density, "compact") || same_text(density, "comfortable") || same_text(
        density,
        "spacious",
    ) {
        Ok(())
    } else {
        Err(String::from_str("Invalid density option"))
    }
}

/// Accepts a polling interval from 10 to 300 seconds and rejects any other
/// with a message.
pub fn update_notification_polling(interval: i32) -> (result: Result<(), String>)
    ensures
        result is Ok <==> polling_interval_ok(interval),
        result matches Err(message) ==> message@
            == "Polling interval must be between 10 and 300 seconds"@,
{
    if interval < MIN_POLLING_INTERVAL || interval > MAX_POLLING_INTERVAL {
        Err(String::from_str("Polling interval must be between 10 and 300 seconds"))
    } else {
        Ok(())
    }
}

/// An export of settings, as far as an import reads it.
#[derive(Debug)]
pub struct ImportDocument {
    /// Whether the document is a JSON object.
    pub is_object: bool,
    /// Its `settings` member as JSON text, when it has one.
    pub settings: Option<String>,
}

/// What an import makes of a document, or of the reason why the text was no
/// JSON: the settings to save, or the message of the refusal.
pub open spec fn import_result(parsed: Result<ImportDocument, String>) -> Result<
    Seq<char>,
    Seq<char>,
> {
    match parsed {
        Err(reason) => Err("Failed to parse import data: "@ + reason@),
        Ok(document) => if !document.is_object {
            Err("Invalid import data format"@)
        } else {
            match document.settings {
                None => Err("No settings found in import data"@),
                Some(settings) => Ok(settings@),
            }
        },
    }
}

/// Judges a document offered for import. A text that is no JSON, a document
/// that is no object and an object without `settings` are refused, each with
/// its own message; otherwise the `settings` member is what gets saved.
pub fn import_settings(parsed: Result<ImportDocument, String>) -> (result: Result<String, String>)
    ensures
        match result {
            Ok(settings) => import_result(parsed) == Ok::<Seq<char>, Seq<char>>(settings@),
            Err(message) => import_result(parsed) == Err::<Seq<char>, Seq<char>>(message@),
        },
{
    match parsed {
        Err(reason) => Err(
            String::from_str("Failed to parse import data: ").concat(reason.as_str()),
        ),
        Ok(document) => {
            if !document.is_object {
                Err(String::from_str("Invalid import data format"))
            } else {
                match document.settings {
                    None => Err(String::from_str("No settings found in import data")),
                    Some(settings) => Ok(settings),
                }
            }
        },
    }
}

} // verus!
