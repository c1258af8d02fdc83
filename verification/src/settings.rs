//! The application's settings record and its defaults.

use vstd::prelude::*;

verus! {

/// The settings of one user, as the settings store keeps them.
#[derive(Debug)]
pub struct Settings {
    pub id: Option<i32>,
    pub theme: String,
    pub language: String,
    pub notifications: bool,
    pub email_notifications: bool,
    pub auto_save: bool,
    pub auto_save_interval: i32,
    pub privacy_mode: bool,
    pub data_collection: bool,
    pub username: String,
    pub display_name: String,
    pub bio: String,
    pub created_at: Option<String>,
    pub updated_at: Option<String>,
}

impl Default for Settings {
    /// The settings of a new installation.
    fn default() -> (settings: Self)
        ensures
            settings.id is None,
            settings.theme@ == "auto"@,
            settings.language@ == "en"@,
            settings.notifications,
            !settings.email_notifications,
            settings.auto_save,
            settings.auto_save_interval == 5,
            !settings.privacy_mode,
            settings.data_collection,
            settings.username@ == "user@example.com"@,
            settings.display_name@ == "John Doe"@,
            settings.bio@ == ""@,
            settings.created_at is None,
            settings.updated_at is None,
    {
        Settings {
            id: None,
            theme: "auto".to_owned(),
            language: "en".to_owned(),
            notifications: true,
            email_notifications: false,
            auto_save: true,
            auto_save_interval: 5,
            privacy_mode: false,
            data_collection: true,
            username: "user@example.com".to_owned(),
            display_name: "John Doe".to_owned(),
            bio: "".to_owned(),
            created_at: None,
            updated_at: None,
        }
    }
}

} // verus!
