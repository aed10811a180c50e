//! Remembered sign-in preferences. A remembered password is kept only as a
//! ciphertext blob, and only while the preferences say to remember it.

use vstd::prelude::*;
use vstd::utf8::*;
use crate::cipher::{decrypt_password, decrypt_spec, encrypt_password, sealable_len, sealed_under_some_nonce};
use crate::error::StoreError;
use crate::store::{clone_text_opt, loaded, text_opt_view, DiskAction, StoredFile};

verus! {

/// The sign-in preferences of the user.
#[derive(Debug, PartialEq, Eq)]
pub struct AuthPreferences {
    pub remember_me: bool,
    pub remember_password: bool,
    pub sign_in_automatically: bool,
    /// The remembered email address, in the clear.
    pub remembered_email: Option<String>,
    /// The remembered password as a ciphertext blob.
    pub encrypted_password: Option<String>,
}

/// What an [`AuthPreferences`] holds.
pub struct AuthPreferencesView {
    pub remember_me: bool,
    pub remember_password: bool,
    pub sign_in_automatically: bool,
    pub remembered_email: Option<Seq<char>>,
    pub encrypted_password: Option<Seq<char>>,
}

impl View for AuthPreferences {
    type V = AuthPreferencesView;

    open spec fn view(&self) -> AuthPreferencesView {
        AuthPreferencesView {
            remember_me: self.remember_me,
            remember_password: self.remember_password,
            sign_in_automatically: self.sign_in_automatically,
            remembered_email: text_opt_view(self.remembered_email),
            encrypted_password: text_opt_view(self.encrypted_password),
        }
    }
}

/// The preferences of a first run: nothing is remembered, and signing in
/// automatically is on.
pub open spec fn default_preferences() -> AuthPreferencesView {
    AuthPreferencesView {
        remember_me: false,
        remember_password: false,
        sign_in_automatically: true,
        remembered_email: None,
        encrypted_password: None,
    }
}

impl Default for AuthPreferences {
    fn default() -> (preferences: Self)
        ensures
            preferences@ == default_preferences(),
    {
        AuthPreferences {
            remember_me: false,
            remember_password: false,
            sign_in_automatically: true,
            remembered_email: None,
            encrypted_password: None,
        }
    }
}

impl Clone for AuthPreferences {
    fn clone(&self) -> (copy: Self)
        ensures
            copy@ == self@,
    {
        AuthPreferences {
            remember_me: self.remember_me,
            remember_password: self.remember_password,
            sign_in_automatically: self.sign_in_automatically,
            remembered_email: clone_text_opt(&self.remembered_email),
            encrypted_password: clone_text_opt(&self.encrypted_password),
        }
    }
}

/// The view of an optional key.
pub open spec fn key_opt_view(key: Option<[u8; 32]>) -> Option<Seq<u8>> {
    match key {
        Some(k) => Some(k@),
        None => None,
    }
}

/// The view of a pair of credentials, or of the failure to get them.
pub open spec fn credentials_view(credentials: Result<(Option<String>, Option<String>), StoreError>) -> Result<
    (Option<Seq<char>>, Option<Seq<char>>),
    StoreError,
> {
    match credentials {
        Ok((email, password)) => Ok((text_opt_view(email), text_opt_view(password))),
        Err(e) => Err(e),
    }
}

/// The preferences with the given blob in place of theirs.
pub open spec fn with_blob(preferences: AuthPreferencesView, blob: Option<Seq<char>>) -> AuthPreferencesView {
    AuthPreferencesView { encrypted_password: blob, ..preferences }
}

/// Whether a save keeps a password: one was supplied, and the preferences
/// say to remember it.
pub open spec fn keeps_password(preferences: AuthPreferencesView, password: Option<Seq<char>>) -> bool {
    password is Some && preferences.remember_password
}

/// The rule that every write keeps: a blob is held only while the
/// preferences say to remember the password.
pub open spec fn blob_is_allowed(preferences: AuthPreferencesView) -> bool {
    preferences.encrypted_password is Some ==> preferences.remember_password
}

/// Why a save fails, if it does. Only a password that is to be kept can
/// make it fail: for want of a key, or because the password is too long to
/// seal.
pub open spec fn save_failure(
    preferences: AuthPreferencesView,
    password: Option<Seq<char>>,
    key: Option<Seq<u8>>,
) -> Option<StoreError> {
    if !keeps_password(preferences, password) {
        None
    } else if key is None {
        Some(StoreError::Io)
    } else if !sealable_len(encode_utf8(password.unwrap()).len()) {
        Some(StoreError::Encryption)
    } else {
        None
    }
}

/// The preferences are always written, restricted to their owner.
pub open spec fn preferences_on_disk(preferences: AuthPreferencesView, action: DiskAction<AuthPreferences>) -> bool {
    action matches DiskAction::Write { record, owner_only } && record@ == preferences && owner_only
}

/// The preferences held after a load brought `file`: a parsed record takes
/// the place of `before`, anything else leaves it.
pub open spec fn preferences_after_load(before: AuthPreferencesView, file: StoredFile<AuthPreferences>) -> AuthPreferencesView {
    match file {
        StoredFile::Parsed(preferences) => preferences@,
        _ => before,
    }
}

/// The remembered email and password for given preferences and key. The
/// email comes as it is. Without a blob there is no password and no key is
/// needed; with a blob and no key the answer is an `Io` error; with both,
/// whatever decrypting the blob gives.
pub open spec fn credentials_spec(preferences: AuthPreferencesView, key: Option<Seq<u8>>) -> Result<
    (Option<Seq<char>>, Option<Seq<char>>),
    StoreError,
> {
    match preferences.encrypted_password {
        None => Ok((preferences.remembered_email, None)),
        Some(blob) => match key {
            None => Err(StoreError::Io),
            Some(k) => match decrypt_spec(k, blob) {
                Ok(password) => Ok((preferences.remembered_email, Some(password))),
                Err(e) => Err(e),
            },
        },
    }
}

/// The preferences store. Its view is the preferences it holds.
pub struct AuthPreferencesManager {
    preferences: AuthPreferences,
}

impl View for AuthPreferencesManager {
    type V = AuthPreferencesView;

    closed spec fn view(&self) -> AuthPreferencesView {
        self.preferences@
    }
}

impl AuthPreferencesManager {
    /// A store for the preferences file as the caller found it. It starts
    /// from the defaults and then loads; a load that fails leaves the
    /// defaults, and the failure is the caller's to log.
    pub fn new(file: StoredFile<AuthPreferences>) -> (manager: Self)
        ensures
            manager@ == preferences_after_load(default_preferences(), file),
    {
        let mut manager = AuthPreferencesManager { preferences: AuthPreferences::default() };
        let _ = manager.load_from_disk(file);
        manager
    }

    /// Takes in what was found at the storage path. A parsed record
    /// replaces the preferences. A missing file is no error and changes
    /// nothing; an unreadable or malformed file is reported and changes
    /// nothing.
    pub fn load_from_disk(&mut self, file: StoredFile<AuthPreferences>) -> (outcome: Result<(), StoreError>)
        ensures
            final(self)@ == preferences_after_load(old(self)@, file),
            outcome is Ok <==> loaded(file) is Ok,
            outcome matches Err(e) ==> loaded(file) == Err::<Option<AuthPreferences>, StoreError>(e),
    {
        match file.into_record() {
            Err(e) => Err(e),
            Ok(None) => Ok(()),
            Ok(Some(preferences)) => {
                self.preferences = preferences;
                Ok(())
            },
        }
    }

    /// A copy of the preferences.
    pub fn get_preferences(&self) -> (preferences: AuthPreferences)
        ensures
            preferences@ == self@,
    {
        self.preferences.clone()
    }

    /// Whether saving these preferences with this password takes the
    /// encryption key. The caller fetches the key only then.
    pub fn save_needs_key(preferences: &AuthPreferences, password: &Option<String>) -> (needed: bool)
        ensures
            needed == keeps_password(preferences@, text_opt_view(*password)),
    {
        password.is_some() && preferences.remember_password
    }

    /// Replaces the preferences. Where a password is supplied and the new
    /// preferences say to remember it, it is sealed under `key` and the blob
    /// is stored. In every other case no blob is stored, whatever blob came
    /// with `preferences` or was held before.
    ///
    /// A password that is to be kept needs the key: without one the call
    /// fails with `Io`, and where the password is too long to seal it fails
    /// with `Encryption`. A call that fails changes nothing.
    pub fn save_preferences(
        &mut self,
        preferences: AuthPreferences,
        password: Option<String>,
        key: Option<[u8; 32]>,
    ) -> (action: Result<DiskAction<AuthPreferences>, StoreError>)
        ensures
            !preferences.remember_password ==> final(self)@.encrypted_password is None,
            action is Ok ==> blob_is_allowed(final(self)@),
            match save_failure(preferences@, text_opt_view(password), key_opt_view(key)) {
                Some(e) => final(self)@ == old(self)@ && action == Err::<
                    DiskAction<AuthPreferences>,
                    StoreError,
                >(e),
                None => final(self)@ == with_blob(preferences@, final(self)@.encrypted_password) && (
                action matches Ok(a) && preferences_on_disk(final(self)@, a)),
            },
            action is Ok && !keeps_password(preferences@, text_opt_view(password))
                ==> final(self)@.encrypted_password is None,
            action is Ok && keeps_password(preferences@, text_opt_view(password))
                ==> final(self)@.encrypted_password is Some && sealed_under_some_nonce(
                key.unwrap()@,
                password.unwrap()@,
                final(self)@.encrypted_password.unwrap(),
            ),
            action is Ok && keeps_password(preferences@, text_opt_view(password))
                ==> credentials_spec(final(self)@, key_opt_view(key)) == Ok::<
                (Option<Seq<char>>, Option<Seq<char>>),
                StoreError,
            >((preferences@.remembered_email, Some(password.unwrap()@))),
    {
        let mut prefs = preferences;
        match password {
            Some(pwd) => {
                if prefs.remember_password {
                    match key {
                        None => {
                            return Err(StoreError::Io);
                        },
                        Some(k) => match encrypt_password(&k, pwd.as_str()) {
                            Err(e) => {
                                return Err(e);
                            },
                            Ok(encrypted) => {
                                prefs.encrypted_password = Some(encrypted);
                            },
                        },
                    }
                } else {
                    prefs.encrypted_password = None;
                }
            },
            None => {
                prefs.encrypted_password = None;
            },
        }
        self.preferences = prefs;
        Ok(self.save_to_disk())
    }

    /// Resets the preferences to the defaults: the remembered email and
    /// any blob go.
    pub fn clear_preferences(&mut self) -> (action: DiskAction<AuthPreferences>)
        ensures
            final(self)@ == default_preferences(),
            blob_is_allowed(final(self)@),
            preferences_on_disk(final(self)@, action),
    {
        self.preferences = AuthPreferences::default();
        self.save_to_disk()
    }

    /// Whether reading the remembered credentials takes the encryption key:
    /// it does where a blob is stored.
    pub fn credentials_need_key(&self) -> (needed: bool)
        ensures
            needed == self@.encrypted_password.is_some(),
    {
        self.preferences.encrypted_password.is_some()
    }

    /// The remembered email and the remembered password. A blob that does
    /// not decrypt is an error, which the caller is to show as a saved
    /// password that could not be restored; the preferences, and the email
    /// in them, stay as they are.
    pub fn get_remembered_credentials(&self, key: Option<[u8; 32]>) -> (credentials: Result<
        (Option<String>, Option<String>),
        StoreError,
    >)
        ensures
            credentials_view(credentials) == credentials_spec(self@, key_opt_view(key)),
    {
        let email = clone_text_opt(&self.preferences.remembered_email);
        match &self.preferences.encrypted_password {
            None => Ok((email, None)),
            Some(encrypted) => match key {
                None => Err(StoreError::Io),
                Some(k) => match decrypt_password(&k, encrypted.as_str()) {
                    Ok(password) => Ok((email, Some(password))),
                    Err(e) => Err(e),
                },
            },
        }
    }

    /// What is to happen to the preferences file for the preferences now
    /// held.
    pub fn save_to_disk(&self) -> (action: DiskAction<AuthPreferences>)
        ensures
            preferences_on_disk(self@, action),
    {
        DiskAction::Write { record: self.preferences.clone(), owner_only: true }
    }
}

/// Persistence. What a store hands out for its file brings the same
/// preferences back: the record that was written, parsed again by a fresh
/// store, is what was held.
pub proof fn lemma_saved_preferences_load_back(held: AuthPreferencesView, action: DiskAction<AuthPreferences>)
    requires
        preferences_on_disk(held, action),
    ensures
        action matches DiskAction::Write { record, owner_only } && preferences_after_load(
            default_preferences(),
            StoredFile::Parsed(record),
        ) == held,
{
}

/// Tolerance. A store made for a file that is missing, unreadable or
/// malformed holds the defaults, and loading such a file changes no store.
/// Only the missing file is no error.
pub proof fn lemma_preferences_survive_bad_file(before: AuthPreferencesView, file: StoredFile<AuthPreferences>)
    requires
        !(file is Parsed),
    ensures
        preferences_after_load(default_preferences(), file) == default_preferences(),
        preferences_after_load(before, file) == before,
        loaded(file) is Ok <==> file is Missing,
        file is Malformed ==> loaded(file) == Err::<Option<AuthPreferences>, StoreError>(StoreError::Format),
        file is Unreadable ==> loaded(file) == Err::<Option<AuthPreferences>, StoreError>(StoreError::Io),
{
}

/// Policy. Preferences that were saved without a password to keep hold no
/// blob, so their credentials come without a password and without any key:
/// the email as it was given, and nothing else.
pub proof fn lemma_unkept_password_is_gone(
    preferences: AuthPreferencesView,
    password: Option<Seq<char>>,
    key: Option<Seq<u8>>,
)
    requires
        !keeps_password(preferences, password),
    ensures
        with_blob(preferences, None).encrypted_password is None,
        credentials_spec(with_blob(preferences, None), key) == Ok::<
            (Option<Seq<char>>, Option<Seq<char>>),
            StoreError,
        >((preferences.remembered_email, None)),
{
}

} // verus!
