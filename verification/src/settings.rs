//! Application settings: notifications, startup behaviour and file
//! handling, each of which can be replaced without touching the others.

use vstd::prelude::*;
use crate::error::StoreError;
use crate::store::{loaded, DiskAction, StoredFile};

verus! {

/// How the user is told of events. The volume runs from 0 to 100; the store
/// keeps the value it is given.
#[derive(Clone, Copy, Debug, PartialEq, Eq, Structural)]
pub struct NotificationSettings {
    pub enabled: bool,
    pub sound_enabled: bool,
    pub sound_volume: u8,
    pub desktop_alerts: bool,
}

/// What happens when the machine or the application starts.
#[derive(Clone, Copy, Debug, PartialEq, Eq, Structural)]
pub struct StartupSettings {
    pub auto_launch: bool,
    pub start_minimized: bool,
}

/// Where received files go, and whose files are taken without asking.
#[derive(Debug, PartialEq, Eq)]
pub struct FileSettings {
    pub download_location: String,
    /// Identifiers of the senders whose files are accepted automatically.
    pub auto_accept_from: Vec<String>,
}

/// What a [`FileSettings`] holds.
pub struct FileSettingsView {
    pub download_location: Seq<char>,
    pub auto_accept_from: Seq<Seq<char>>,
}

/// The view of a list of strings.
pub open spec fn texts_view(texts: Vec<String>) -> Seq<Seq<char>> {
    Seq::new(texts@.len(), |i: int| texts@[i]@)
}

impl View for FileSettings {
    type V = FileSettingsView;

    open spec fn view(&self) -> FileSettingsView {
        FileSettingsView {
            download_location: self.download_location@,
            auto_accept_from: texts_view(self.auto_accept_from),
        }
    }
}

/// A copy of a list of strings.
pub fn clone_texts(texts: &Vec<String>) -> (copy: Vec<String>)
    ensures
        texts_view(copy) == texts_view(*texts),
{
    let mut copy: Vec<String> = Vec::with_capacity(texts.len());
    let mut i: usize = 0;
    while i < texts.len()
        invariant
            i <= texts@.len(),
            copy@.len() == i,
            forall|k: int| 0 <= k < i ==> copy@[k]@ == texts@[k]@,
        decreases texts@.len() - i,
    {
        copy.push(texts[i].clone());
        i += 1;
    }
    assert(texts_view(copy) =~= texts_view(*texts));
    copy
}

impl Clone for FileSettings {
    fn clone(&self) -> (copy: Self)
        ensures
            copy@ == self@,
    {
        FileSettings {
            download_location: self.download_location.clone(),
            auto_accept_from: clone_texts(&self.auto_accept_from),
        }
    }
}

/// All settings of the application.
#[derive(Debug, PartialEq, Eq)]
pub struct AppSettings {
    pub notifications: NotificationSettings,
    pub startup: StartupSettings,
    pub files: FileSettings,
}

/// What an [`AppSettings`] holds.
pub struct AppSettingsView {
    pub notifications: NotificationSettings,
    pub startup: StartupSettings,
    pub files: FileSettingsView,
}

impl View for AppSettings {
    type V = AppSettingsView;

    open spec fn view(&self) -> AppSettingsView {
        AppSettingsView { notifications: self.notifications, startup: self.startup, files: self.files@ }
    }
}

impl Clone for AppSettings {
    fn clone(&self) -> (copy: Self)
        ensures
            copy@ == self@,
    {
        AppSettings {
            notifications: self.notifications,
            startup: self.startup,
            files: self.files.clone(),
        }
    }
}

/// The settings of a first run: every notification on at volume 80, no
/// automatic launch, no download location and no trusted sender.
pub open spec fn default_settings_view() -> AppSettingsView {
    AppSettingsView {
        notifications: NotificationSettings {
            enabled: true,
            sound_enabled: true,
            sound_volume: 80,
            desktop_alerts: true,
        },
        startup: StartupSettings { auto_launch: false, start_minimized: false },
        files: FileSettingsView { download_location: Seq::empty(), auto_accept_from: Seq::empty() },
    }
}

/// The settings of a first run.
pub fn default_settings() -> (settings: AppSettings)
    ensures
        settings@ == default_settings_view(),
{
    let settings = AppSettings {
        notifications: NotificationSettings {
            enabled: true,
            sound_enabled: true,
            sound_volume: 80,
            desktop_alerts: true,
        },
        startup: StartupSettings { auto_launch: false, start_minimized: false },
        files: FileSettings { download_location: String::new(), auto_accept_from: Vec::new() },
    };
    assert(texts_view(settings.files.auto_accept_from) =~= Seq::<Seq<char>>::empty());
    settings
}

/// The settings are always written; they hold no secret, so the file is
/// not restricted.
pub open spec fn settings_on_disk(settings: AppSettingsView, action: DiskAction<AppSettings>) -> bool {
    action matches DiskAction::Write { record, owner_only } && record@ == settings && !owner_only
}

/// The settings held after a load brought `file`: a parsed record takes the
/// place of `before`, anything else leaves it.
pub open spec fn settings_after_load(before: AppSettingsView, file: StoredFile<AppSettings>) -> AppSettingsView {
    match file {
        StoredFile::Parsed(settings) => settings@,
        _ => before,
    }
}

/// The settings store. Its view is the settings it holds.
pub struct SettingsManager {
    settings: AppSettings,
}

impl View for SettingsManager {
    type V = AppSettingsView;

    closed spec fn view(&self) -> AppSettingsView {
        self.settings@
    }
}

impl SettingsManager {
    /// A store for the settings file as the caller found it. It starts from
    /// the defaults and then loads; a load that fails leaves the defaults,
    /// and the failure is the caller's to log.
    pub fn new(file: StoredFile<AppSettings>) -> (manager: Self)
        ensures
            manager@ == settings_after_load(default_settings_view(), file),
    {
        let mut manager = SettingsManager { settings: default_settings() };
        let _ = manager.load_from_disk(file);
        manager
    }

    /// Takes in what was found at the storage path. A parsed record
    /// replaces the settings. A missing file is no error and changes
    /// nothing; an unreadable or malformed file is reported and changes
    /// nothing.
    pub fn load_from_disk(&mut self, file: StoredFile<AppSettings>) -> (outcome: Result<(), StoreError>)
        ensures
            final(self)@ == settings_after_load(old(self)@, file),
            outcome is Ok <==> loaded(file) is Ok,
            outcome matches Err(e) ==> loaded(file) == Err::<Option<AppSettings>, StoreError>(e),
    {
        match file.into_record() {
            Err(e) => Err(e),
            Ok(None) => Ok(()),
            Ok(Some(settings)) => {
                self.settings = settings;
                Ok(())
            },
        }
    }

    /// A copy of the settings.
    pub fn get_settings(&self) -> (settings: AppSettings)
        ensures
            settings@ == self@,
    {
        self.settings.clone()
    }

    /// Replaces the notification settings and nothing else.
    pub fn update_notification_settings(&mut self, updates: NotificationSettings) -> (action: DiskAction<AppSettings>)
        ensures
            final(self)@ == (AppSettingsView { notifications: updates, ..old(self)@ }),
            settings_on_disk(final(self)@, action),
    {
        self.settings.notifications = updates;
        self.save_to_disk()
    }

    /// Replaces the startup settings and nothing else.
    pub fn update_startup_settings(&mut self, updates: StartupSettings) -> (action: DiskAction<AppSettings>)
        ensures
            final(self)@ == (AppSettingsView { startup: updates, ..old(self)@ }),
            settings_on_disk(final(self)@, action),
    {
        self.settings.startup = updates;
        self.save_to_disk()
    }

    /// Replaces the file settings and nothing else.
    pub fn update_file_settings(&mut self, updates: FileSettings) -> (action: DiskAction<AppSettings>)
        ensures
            final(self)@ == (AppSettingsView { files: updates@, ..old(self)@ }),
            settings_on_disk(final(self)@, action),
    {
        self.settings.files = updates;
        self.save_to_disk()
    }

    /// Puts every setting back to its default.
    pub fn reset_settings(&mut self) -> (action: DiskAction<AppSettings>)
        ensures
            final(self)@ == default_settings_view(),
            settings_on_disk(final(self)@, action),
    {
        self.settings = default_settings();
        self.save_to_disk()
    }

    /// What is to happen to the settings file for the settings now held.
    pub fn save_to_disk(&self) -> (action: DiskAction<AppSettings>)
        ensures
            settings_on_disk(self@, action),
    {
        DiskAction::Write { record: self.settings.clone(), owner_only: false }
    }
}

/// Persistence. What a store hands out for its file brings the same
/// settings back: the record that was written, parsed again by a fresh
/// store, is what was held.
pub proof fn lemma_saved_settings_load_back(held: AppSettingsView, action: DiskAction<AppSettings>)
    requires
        settings_on_disk(held, action),
    ensures
        action matches DiskAction::Write { record, owner_only } && settings_after_load(
            default_settings_view(),
            StoredFile::Parsed(record),
        ) == held,
{
}

/// Tolerance. A store made for a file that is missing, unreadable or
/// malformed holds the defaults, and loading such a file changes no store.
/// Only the missing file is no error.
pub proof fn lemma_settings_survive_bad_file(before: AppSettingsView, file: StoredFile<AppSettings>)
    requires
        !(file is Parsed),
    ensures
        settings_after_load(default_settings_view(), file) == default_settings_view(),
        settings_after_load(before, file) == before,
        loaded(file) is Ok <==> file is Missing,
        file is Malformed ==> loaded(file) == Err::<Option<AppSettings>, StoreError>(StoreError::Format),
        file is Unreadable ==> loaded(file) == Err::<Option<AppSettings>, StoreError>(StoreError::Io),
{
}

} // verus!
