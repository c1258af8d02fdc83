use butler_logger::settings::Settings;

#[test]
fn default_settings_are_those_of_a_new_installation() {
    let settings = Settings::default();
    assert_eq!(settings.id, None);
    assert_eq!(settings.theme, "auto");
    assert_eq!(settings.language, "en");
    assert!(settings.notifications);
    assert!(!settings.email_notifications);
    assert!(settings.auto_save);
    assert_eq!(settings.auto_save_interval, 5);
    assert!(!settings.privacy_mode);
    assert!(settings.data_collection);
    assert_eq!(settings.username, "user@example.com");
    assert_eq!(settings.display_name, "John Doe");
    assert_eq!(settings.bio, "");
    assert_eq!(settings.created_at, None);
    assert_eq!(settings.updated_at, None);
}
