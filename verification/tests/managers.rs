use messenger_store::auth::{AuthData, AuthManager, AuthUser};
use messenger_store::auth_preferences::{AuthPreferences, AuthPreferencesManager};
use messenger_store::cipher::decrypt_password;
use messenger_store::error::StoreError;
use messenger_store::settings::{
    default_settings, AppSettings, FileSettings, NotificationSettings, SettingsManager,
    StartupSettings,
};
use messenger_store::store::{DiskAction, StoredFile};
use messenger_store::AppState;

fn store_key() -> [u8; 32] {
    [0x42u8; 32]
}

fn user(name: &str) -> AuthUser {
    AuthUser {
        id: format!("id-{}", name),
        email: format!("{}@example.org", name),
        username: name.to_string(),
        display_name: name.to_uppercase(),
        personal_message: Some("hello".to_string()),
        display_picture_url: None,
        presence_status: Some("online".to_string()),
    }
}

fn remembering(email: &str, remember_password: bool) -> AuthPreferences {
    AuthPreferences {
        remember_me: true,
        remember_password,
        sign_in_automatically: false,
        remembered_email: Some(email.to_string()),
        encrypted_password: None,
    }
}

fn written<T>(action: DiskAction<T>) -> (T, bool) {
    match action {
        DiskAction::Write { record, owner_only } => (record, owner_only),
        DiskAction::Remove => panic!("expected a write"),
    }
}

#[test]
fn stored_file_outcomes() {
    assert_eq!(StoredFile::<u8>::Missing.into_record(), Ok(None));
    assert_eq!(StoredFile::<u8>::Unreadable.into_record(), Err(StoreError::Io));
    assert_eq!(StoredFile::<u8>::Malformed.into_record(), Err(StoreError::Format));
    assert_eq!(StoredFile::Parsed(5u8).into_record(), Ok(Some(5u8)));
}

#[test]
fn default_preferences_remember_nothing() {
    let defaults = AuthPreferences::default();
    assert_eq!(
        defaults,
        AuthPreferences {
            remember_me: false,
            remember_password: false,
            sign_in_automatically: true,
            remembered_email: None,
            encrypted_password: None,
        }
    );
}

#[test]
fn preferences_store_on_missing_file_has_defaults() {
    let manager = AuthPreferencesManager::new(StoredFile::Missing);
    assert_eq!(manager.get_preferences(), AuthPreferences::default());
    let mut again = AuthPreferencesManager::new(StoredFile::Missing);
    assert_eq!(again.load_from_disk(StoredFile::Missing), Ok(()));
    assert_eq!(again.get_preferences(), AuthPreferences::default());
}

#[test]
fn preferences_store_on_corrupt_file_has_defaults() {
    let manager = AuthPreferencesManager::new(StoredFile::Malformed);
    assert_eq!(manager.get_preferences(), AuthPreferences::default());
    let manager = AuthPreferencesManager::new(StoredFile::Unreadable);
    assert_eq!(manager.get_preferences(), AuthPreferences::default());
}

#[test]
fn failed_load_keeps_the_preferences() {
    let mut manager = AuthPreferencesManager::new(StoredFile::Parsed(remembering("a@b.c", false)));
    assert_eq!(manager.load_from_disk(StoredFile::Malformed), Err(StoreError::Format));
    assert_eq!(manager.get_preferences(), remembering("a@b.c", false));
    assert_eq!(manager.load_from_disk(StoredFile::Unreadable), Err(StoreError::Io));
    assert_eq!(manager.get_preferences(), remembering("a@b.c", false));
    assert_eq!(manager.load_from_disk(StoredFile::Missing), Ok(()));
    assert_eq!(manager.get_preferences(), remembering("a@b.c", false));
    assert_eq!(
        manager.load_from_disk(StoredFile::Parsed(remembering("d@e.f", true))),
        Ok(())
    );
    assert_eq!(manager.get_preferences(), remembering("d@e.f", true));
}

#[test]
fn save_needs_key_only_for_a_password_to_keep() {
    let pw = Some("Secr3t!".to_string());
    assert!(AuthPreferencesManager::save_needs_key(&remembering("a@b.c", true), &pw));
    assert!(!AuthPreferencesManager::save_needs_key(&remembering("a@b.c", false), &pw));
    assert!(!AuthPreferencesManager::save_needs_key(&remembering("a@b.c", true), &None));
    assert!(!AuthPreferencesManager::save_needs_key(&remembering("a@b.c", false), &None));
}

#[test]
fn remembered_password_end_to_end() {
    let key = store_key();
    let mut manager = AuthPreferencesManager::new(StoredFile::Missing);
    assert!(!manager.credentials_need_key());
    let action = manager
        .save_preferences(
            remembering("me@example.org", true),
            Some("Secr3t!".to_string()),
            Some(key),
        )
        .unwrap();
    let (record, owner_only) = written(action);
    assert!(owner_only);
    assert_eq!(record, manager.get_preferences());
    let blob = record.encrypted_password.clone().unwrap();
    assert_ne!(blob, "Secr3t!");
    assert_eq!(decrypt_password(&key, &blob), Ok("Secr3t!".to_string()));
    assert!(manager.credentials_need_key());
    assert_eq!(
        manager.get_remembered_credentials(Some(key)),
        Ok((Some("me@example.org".to_string()), Some("Secr3t!".to_string())))
    );

    let action = manager
        .save_preferences(remembering("me@example.org", false), None, None)
        .unwrap();
    let (record, owner_only) = written(action);
    assert!(owner_only);
    assert_eq!(record.encrypted_password, None);
    assert!(!manager.credentials_need_key());
    assert_eq!(
        manager.get_remembered_credentials(None),
        Ok((Some("me@example.org".to_string()), None))
    );
}

#[test]
fn no_blob_without_remember_password() {
    let key = store_key();
    let stale = AuthPreferences {
        encrypted_password: Some("c3RhbGU=".to_string()),
        ..remembering("me@example.org", false)
    };
    for password in [None, Some("Secr3t!".to_string())] {
        for key in [None, Some(key)] {
            let mut manager = AuthPreferencesManager::new(StoredFile::Missing);
            manager
                .save_preferences(
                    remembering("me@example.org", true),
                    Some("old".to_string()),
                    Some(store_key()),
                )
                .unwrap();
            assert!(manager.get_preferences().encrypted_password.is_some());
            let action = manager
                .save_preferences(
                    AuthPreferences {
                        remember_me: stale.remember_me,
                        remember_password: stale.remember_password,
                        sign_in_automatically: stale.sign_in_automatically,
                        remembered_email: stale.remembered_email.clone(),
                        encrypted_password: stale.encrypted_password.clone(),
                    },
                    password.clone(),
                    key,
                )
                .unwrap();
            assert_eq!(manager.get_preferences(), remembering("me@example.org", false));
            assert_eq!(written(action).0.encrypted_password, None);
        }
    }
}

#[test]
fn no_blob_without_a_password() {
    let mut manager = AuthPreferencesManager::new(StoredFile::Missing);
    manager
        .save_preferences(
            remembering("me@example.org", true),
            Some("old".to_string()),
            Some(store_key()),
        )
        .unwrap();
    let incoming = AuthPreferences {
        encrypted_password: Some("c3RhbGU=".to_string()),
        ..remembering("me@example.org", true)
    };
    let action = manager.save_preferences(incoming, None, None).unwrap();
    assert_eq!(manager.get_preferences(), remembering("me@example.org", true));
    assert_eq!(written(action).0, remembering("me@example.org", true));
}

#[test]
fn keeping_a_password_without_a_key_fails_and_changes_nothing() {
    let mut manager = AuthPreferencesManager::new(StoredFile::Parsed(remembering("a@b.c", false)));
    assert_eq!(
        manager.save_preferences(remembering("x@y.z", true), Some("pw".to_string()), None),
        Err(StoreError::Io)
    );
    assert_eq!(manager.get_preferences(), remembering("a@b.c", false));
}

#[test]
fn undecryptable_blob_is_reported_and_email_stays() {
    let key = store_key();
    let mut manager = AuthPreferencesManager::new(StoredFile::Missing);
    manager
        .save_preferences(
            remembering("me@example.org", true),
            Some("Secr3t!".to_string()),
            Some(key),
        )
        .unwrap();
    let mut other = key;
    other[0] ^= 0xff;
    assert_eq!(
        manager.get_remembered_credentials(Some(other)),
        Err(StoreError::Authentication)
    );
    assert_eq!(manager.get_remembered_credentials(None), Err(StoreError::Io));
    assert_eq!(
        manager.get_preferences().remembered_email,
        Some("me@example.org".to_string())
    );
    assert_eq!(
        manager.get_remembered_credentials(Some(key)),
        Ok((Some("me@example.org".to_string()), Some("Secr3t!".to_string())))
    );

    let broken = AuthPreferences {
        encrypted_password: Some("AAAA".to_string()),
        ..remembering("me@example.org", true)
    };
    let loaded = AuthPreferencesManager::new(StoredFile::Parsed(broken));
    assert_eq!(loaded.get_remembered_credentials(Some(key)), Err(StoreError::Format));
}

#[test]
fn clear_preferences_resets_everything() {
    let mut manager = AuthPreferencesManager::new(StoredFile::Missing);
    manager
        .save_preferences(
            remembering("me@example.org", true),
            Some("Secr3t!".to_string()),
            Some(store_key()),
        )
        .unwrap();
    let (record, owner_only) = written(manager.clear_preferences());
    assert!(owner_only);
    assert_eq!(record, AuthPreferences::default());
    assert_eq!(manager.get_preferences(), AuthPreferences::default());
    assert_eq!(manager.get_remembered_credentials(None), Ok((None, None)));
}

#[test]
fn saved_preferences_load_back_in_a_fresh_store() {
    let mut manager = AuthPreferencesManager::new(StoredFile::Missing);
    let action = manager
        .save_preferences(
            remembering("me@example.org", true),
            Some("Secr3t!".to_string()),
            Some(store_key()),
        )
        .unwrap();
    let (record, _) = written(action);
    let fresh = AuthPreferencesManager::new(StoredFile::Parsed(record));
    assert_eq!(fresh.get_preferences(), manager.get_preferences());
    assert_eq!(
        fresh.get_remembered_credentials(Some(store_key())),
        Ok((Some("me@example.org".to_string()), Some("Secr3t!".to_string())))
    );
    let (again, owner_only) = written(fresh.save_to_disk());
    assert!(owner_only);
    assert_eq!(again, manager.get_preferences());
}

#[test]
fn session_store_starts_signed_out() {
    for file in [StoredFile::Missing, StoredFile::Malformed, StoredFile::Unreadable] {
        let manager = AuthManager::new(file);
        assert!(!manager.is_authenticated());
        assert_eq!(manager.get_user(), None);
        assert_eq!(manager.get_token(), None);
        assert_eq!(manager.get_refresh_token(), None);
        assert_eq!(manager.save_to_disk(), DiskAction::Remove);
    }
}

#[test]
fn session_load_outcomes() {
    let mut manager = AuthManager::new(StoredFile::Missing);
    assert_eq!(manager.load_from_disk(StoredFile::Missing), Ok(()));
    assert_eq!(manager.load_from_disk(StoredFile::Malformed), Err(StoreError::Format));
    assert_eq!(manager.load_from_disk(StoredFile::Unreadable), Err(StoreError::Io));
    assert!(!manager.is_authenticated());
    let data = AuthData {
        user: user("ann"),
        token: "t1".to_string(),
        refresh_token: "r1".to_string(),
    };
    assert_eq!(manager.load_from_disk(StoredFile::Parsed(data)), Ok(()));
    assert!(manager.is_authenticated());
    assert_eq!(manager.load_from_disk(StoredFile::Malformed), Err(StoreError::Format));
    assert_eq!(manager.get_user(), Some(user("ann")));
    assert_eq!(manager.load_from_disk(StoredFile::Missing), Ok(()));
    assert_eq!(manager.get_token(), Some("t1".to_string()));
}

#[test]
fn sign_in_update_and_sign_out() {
    let mut manager = AuthManager::new(StoredFile::Missing);
    assert_eq!(manager.update_user(user("bob")), Err(StoreError::State));
    assert!(!manager.is_authenticated());

    let action = manager.set_auth(user("ann"), "t1".to_string(), "r1".to_string());
    let (record, owner_only) = written(action);
    assert!(owner_only);
    assert_eq!(
        record,
        AuthData { user: user("ann"), token: "t1".to_string(), refresh_token: "r1".to_string() }
    );
    assert!(manager.is_authenticated());
    assert_eq!(manager.get_user(), Some(user("ann")));
    assert_eq!(manager.get_token(), Some("t1".to_string()));
    assert_eq!(manager.get_refresh_token(), Some("r1".to_string()));

    let action = manager.update_user(user("bob")).unwrap();
    let (record, _) = written(action);
    assert_eq!(
        record,
        AuthData { user: user("bob"), token: "t1".to_string(), refresh_token: "r1".to_string() }
    );
    assert_eq!(manager.get_user(), Some(user("bob")));
    assert_eq!(manager.get_token(), Some("t1".to_string()));

    let action = manager.set_auth(user("cid"), "t2".to_string(), "r2".to_string());
    assert_eq!(written(action).0.token, "t2");
    assert_eq!(manager.get_refresh_token(), Some("r2".to_string()));

    assert_eq!(manager.clear_auth(), DiskAction::Remove);
    assert!(!manager.is_authenticated());
    assert_eq!(manager.get_user(), None);
    assert_eq!(manager.update_user(user("bob")), Err(StoreError::State));
}

#[test]
fn saved_session_loads_back_in_a_fresh_store() {
    let mut manager = AuthManager::new(StoredFile::Missing);
    let (record, _) = written(manager.set_auth(user("ann"), "t1".to_string(), "r1".to_string()));
    let fresh = AuthManager::new(StoredFile::Parsed(record));
    assert_eq!(fresh.get_user(), manager.get_user());
    assert_eq!(fresh.get_token(), manager.get_token());
    assert_eq!(fresh.get_refresh_token(), manager.get_refresh_token());
    assert_eq!(fresh.save_to_disk(), manager.save_to_disk());
}

#[test]
fn default_settings_values() {
    let settings = default_settings();
    assert_eq!(
        settings,
        AppSettings {
            notifications: NotificationSettings {
                enabled: true,
                sound_enabled: true,
                sound_volume: 80,
                desktop_alerts: true,
            },
            startup: StartupSettings { auto_launch: false, start_minimized: false },
            files: FileSettings { download_location: String::new(), auto_accept_from: Vec::new() },
        }
    );
}

#[test]
fn settings_store_on_missing_or_corrupt_file_has_defaults() {
    for file in [StoredFile::Missing, StoredFile::Malformed, StoredFile::Unreadable] {
        let manager = SettingsManager::new(file);
        assert_eq!(manager.get_settings(), default_settings());
    }
    let mut manager = SettingsManager::new(StoredFile::Missing);
    assert_eq!(manager.load_from_disk(StoredFile::Missing), Ok(()));
    assert_eq!(manager.load_from_disk(StoredFile::Malformed), Err(StoreError::Format));
    assert_eq!(manager.load_from_disk(StoredFile::Unreadable), Err(StoreError::Io));
    assert_eq!(manager.get_settings(), default_settings());
}

#[test]
fn each_group_of_settings_is_updated_alone() {
    let mut manager = SettingsManager::new(StoredFile::Missing);
    let quiet = NotificationSettings {
        enabled: false,
        sound_enabled: false,
        sound_volume: 0,
        desktop_alerts: false,
    };
    let (record, owner_only) = written(manager.update_notification_settings(quiet));
    assert!(!owner_only);
    let mut expected = default_settings();
    expected.notifications = quiet;
    assert_eq!(record, expected);
    assert_eq!(manager.get_settings(), expected);

    let startup = StartupSettings { auto_launch: true, start_minimized: true };
    let (record, _) = written(manager.update_startup_settings(startup));
    expected.startup = startup;
    assert_eq!(record, expected);
    assert_eq!(manager.get_settings(), expected);

    let files = FileSettings {
        download_location: "/home/ann/Downloads".to_string(),
        auto_accept_from: vec!["u1".to_string(), "u2".to_string(), "u1".to_string()],
    };
    let (record, _) = written(manager.update_file_settings(FileSettings {
        download_location: files.download_location.clone(),
        auto_accept_from: files.auto_accept_from.clone(),
    }));
    expected.files = files;
    assert_eq!(record, expected);
    assert_eq!(manager.get_settings(), expected);

    let fresh = SettingsManager::new(StoredFile::Parsed(record));
    assert_eq!(fresh.get_settings(), expected);

    let (record, owner_only) = written(manager.reset_settings());
    assert!(!owner_only);
    assert_eq!(record, default_settings());
    assert_eq!(manager.get_settings(), default_settings());
}

#[test]
fn volume_is_kept_as_given() {
    let mut manager = SettingsManager::new(StoredFile::Missing);
    let loud = NotificationSettings {
        enabled: true,
        sound_enabled: true,
        sound_volume: 100,
        desktop_alerts: true,
    };
    manager.update_notification_settings(loud);
    assert_eq!(manager.get_settings().notifications.sound_volume, 100);
}

#[test]
fn app_state_keeps_the_profile() {
    assert_eq!(AppState::new(None).get_profile(), None);
    assert_eq!(
        AppState::new(Some("user1".to_string())).get_profile(),
        Some("user1".to_string())
    );
}

#[test]
fn copies_are_equal_to_what_was_copied() {
    let u = user("ann");
    assert_eq!(u.clone(), u);
    let p = remembering("a@b.c", true);
    assert_eq!(p.clone(), p);
    let mut s = default_settings();
    s.files.auto_accept_from = vec!["u1".to_string()];
    assert_eq!(s.clone(), s);
}
