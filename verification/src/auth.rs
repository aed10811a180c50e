//! The signed-in session: who the user is, and the two tokens.

use vstd::prelude::*;
use crate::error::StoreError;
use crate::store::{clone_text_opt, loaded, text_opt_view, DiskAction, StoredFile};

verus! {

/// A user of the messenger.
#[derive(Debug, PartialEq, Eq)]
pub struct AuthUser {
    pub id: String,
    pub email: String,
    pub username: String,
    pub display_name: String,
    pub personal_message: Option<String>,
    pub display_picture_url: Option<String>,
    pub presence_status: Option<String>,
}

/// What an [`AuthUser`] holds.
pub struct AuthUserView {
    pub id: Seq<char>,
    pub email: Seq<char>,
    pub username: Seq<char>,
    pub display_name: Seq<char>,
    pub personal_message: Option<Seq<char>>,
    pub display_picture_url: Option<Seq<char>>,
    pub presence_status: Option<Seq<char>>,
}

impl View for AuthUser {
    type V = AuthUserView;

    open spec fn view(&self) -> AuthUserView {
        AuthUserView {
            id: self.id@,
            email: self.email@,
            username: self.username@,
            display_name: self.display_name@,
            personal_message: text_opt_view(self.personal_message),
            display_picture_url: text_opt_view(self.display_picture_url),
            presence_status: text_opt_view(self.presence_status),
        }
    }
}

impl Clone for AuthUser {
    fn clone(&self) -> (copy: Self)
        ensures
            copy@ == self@,
    {
        AuthUser {
            id: self.id.clone(),
            email: self.email.clone(),
            username: self.username.clone(),
            display_name: self.display_name.clone(),
            personal_message: clone_text_opt(&self.personal_message),
            display_picture_url: clone_text_opt(&self.display_picture_url),
            presence_status: clone_text_opt(&self.presence_status),
        }
    }
}

/// A session: the user, the access token and the refresh token.
#[derive(Debug, PartialEq, Eq)]
pub struct AuthData {
    pub user: AuthUser,
    pub token: String,
    pub refresh_token: String,
}

/// What an [`AuthData`] holds.
pub struct AuthDataView {
    pub user: AuthUserView,
    pub token: Seq<char>,
    pub refresh_token: Seq<char>,
}

impl View for AuthData {
    type V = AuthDataView;

    open spec fn view(&self) -> AuthDataView {
        AuthDataView { user: self.user@, token: self.token@, refresh_token: self.refresh_token@ }
    }
}

impl Clone for AuthData {
    fn clone(&self) -> (copy: Self)
        ensures
            copy@ == self@,
    {
        AuthData {
            user: self.user.clone(),
            token: self.token.clone(),
            refresh_token: self.refresh_token.clone(),
        }
    }
}

/// The view of an optional session.
pub open spec fn session_view(session: Option<AuthData>) -> Option<AuthDataView> {
    match session {
        Some(data) => Some(data@),
        None => None,
    }
}

/// The view of an optional user.
pub open spec fn user_opt_view(user: Option<AuthUser>) -> Option<AuthUserView> {
    match user {
        Some(u) => Some(u@),
        None => None,
    }
}

/// What is to happen to the session file when the store holds `session`: a
/// session is written, restricted to its owner, since it holds the tokens;
/// without one the file goes.
pub open spec fn session_on_disk(session: Option<AuthDataView>, action: DiskAction<AuthData>) -> bool {
    match session {
        Some(data) => action matches DiskAction::Write { record, owner_only } && record@ == data
            && owner_only,
        None => action == DiskAction::<AuthData>::Remove,
    }
}

/// The session that a store holds after it had `before` and a load brought
/// `file`: a parsed record takes its place, anything else leaves it.
pub open spec fn session_after_load(before: Option<AuthDataView>, file: StoredFile<AuthData>) -> Option<AuthDataView> {
    match file {
        StoredFile::Parsed(data) => Some(data@),
        _ => before,
    }
}

/// The session store. It holds at most one session; its view is the session
/// it holds.
pub struct AuthManager {
    auth_data: Option<AuthData>,
}

impl View for AuthManager {
    type V = Option<AuthDataView>;

    closed spec fn view(&self) -> Option<AuthDataView> {
        session_view(self.auth_data)
    }
}

impl AuthManager {
    /// A store for the session file as the caller found it. It starts
    /// signed out and then loads; a load that fails leaves it signed out,
    /// and the failure is the caller's to log.
    pub fn new(file: StoredFile<AuthData>) -> (manager: Self)
        ensures
            manager@ == session_after_load(None, file),
    {
        let mut manager = AuthManager { auth_data: None };
        let _ = manager.load_from_disk(file);
        manager
    }

    /// Takes in what was found at the storage path. A parsed record
    /// replaces the session. A missing file is no error and changes
    /// nothing; an unreadable or malformed file is reported and changes
    /// nothing.
    pub fn load_from_disk(&mut self, file: StoredFile<AuthData>) -> (outcome: Result<(), StoreError>)
        ensures
            final(self)@ == session_after_load(old(self)@, file),
            outcome is Ok <==> loaded(file) is Ok,
            outcome matches Err(e) ==> loaded(file) == Err::<Option<AuthData>, StoreError>(e),
    {
        match file.into_record() {
            Err(e) => Err(e),
            Ok(None) => Ok(()),
            Ok(Some(data)) => {
                self.auth_data = Some(data);
                Ok(())
            },
        }
    }

    /// The signed-in user, if any.
    pub fn get_user(&self) -> (user: Option<AuthUser>)
        ensures
            user_opt_view(user) == (match self@ {
                Some(data) => Some(data.user),
                None => None,
            }),
    {
        match &self.auth_data {
            Some(data) => Some(data.user.clone()),
            None => None,
        }
    }

    /// The access token, if signed in.
    pub fn get_token(&self) -> (token: Option<String>)
        ensures
            text_opt_view(token) == (match self@ {
                Some(data) => Some(data.token),
                None => None,
            }),
    {
        match &self.auth_data {
            Some(data) => Some(data.token.clone()),
            None => None,
        }
    }

    /// The refresh token, if signed in.
    pub fn get_refresh_token(&self) -> (token: Option<String>)
        ensures
            text_opt_view(token) == (match self@ {
                Some(data) => Some(data.refresh_token),
                None => None,
            }),
    {
        match &self.auth_data {
            Some(data) => Some(data.refresh_token.clone()),
            None => None,
        }
    }

    /// Signs in: the session is replaced wholesale, and is to be written.
    pub fn set_auth(&mut self, user: AuthUser, token: String, refresh_token: String) -> (action: DiskAction<AuthData>)
        ensures
            final(self)@ == Some(
                AuthDataView { user: user@, token: token@, refresh_token: refresh_token@ },
            ),
            session_on_disk(final(self)@, action),
    {
        self.auth_data = Some(AuthData { user, token, refresh_token });
        self.save_to_disk()
    }

    /// Replaces the user of the session and keeps the tokens. Without a
    /// session this is a `State` error.
    pub fn update_user(&mut self, user_updates: AuthUser) -> (action: Result<DiskAction<AuthData>, StoreError>)
        ensures
            match old(self)@ {
                Some(data) => final(self)@ == Some(
                    AuthDataView {
                        user: user_updates@,
                        token: data.token,
                        refresh_token: data.refresh_token,
                    },
                ) && (action matches Ok(a) && session_on_disk(final(self)@, a)),
                None => final(self)@ == old(self)@ && action == Err::<DiskAction<AuthData>, StoreError>(
                    StoreError::State,
                ),
            },
    {
        match self.auth_data.take() {
            Some(data) => {
                self.auth_data = Some(
                    AuthData { user: user_updates, token: data.token, refresh_token: data.refresh_token },
                );
                Ok(self.save_to_disk())
            },
            None => Err(StoreError::State),
        }
    }

    /// Signs out: the session goes, and so does its file.
    pub fn clear_auth(&mut self) -> (action: DiskAction<AuthData>)
        ensures
            final(self)@ == None::<AuthDataView>,
            action == DiskAction::<AuthData>::Remove,
    {
        self.auth_data = None;
        self.save_to_disk()
    }

    /// Whether a session is held.
    pub fn is_authenticated(&self) -> (signed_in: bool)
        ensures
            signed_in == self@.is_some(),
    {
        self.auth_data.is_some()
    }

    /// What is to happen to the session file for the session now held.
    pub fn save_to_disk(&self) -> (action: DiskAction<AuthData>)
        ensures
            session_on_disk(self@, action),
    {
        match &self.auth_data {
            Some(data) => DiskAction::Write { record: data.clone(), owner_only: true },
            None => DiskAction::Remove,
        }
    }
}

/// Persistence. What a store hands out for its file brings the same session
/// back: a record that was written and is parsed again by a fresh store is
/// the session that was held, and after a sign-out the file is gone and a
/// fresh store is signed out.
pub proof fn lemma_saved_session_loads_back(held: Option<AuthDataView>, action: DiskAction<AuthData>)
    requires
        session_on_disk(held, action),
    ensures
        match action {
            DiskAction::Write { record, owner_only } => session_after_load(None, StoredFile::Parsed(record))
                == held,
            DiskAction::Remove => session_after_load(None, StoredFile::<AuthData>::Missing) == held,
        },
{
}

/// Tolerance. A store made for a file that is missing, unreadable or
/// malformed is signed out, and loading such a file changes no store. Only
/// the missing file is no error.
pub proof fn lemma_session_survives_bad_file(before: Option<AuthDataView>, file: StoredFile<AuthData>)
    requires
        !(file is Parsed),
    ensures
        session_after_load(None, file) == None::<AuthDataView>,
        session_after_load(before, file) == before,
        loaded(file) is Ok <==> file is Missing,
        file is Malformed ==> loaded(file) == Err::<Option<AuthData>, StoreError>(StoreError::Format),
        file is Unreadable ==> loaded(file) == Err::<Option<AuthData>, StoreError>(StoreError::Io),
{
}

} // verus!
