//! Local secure state store of a desktop messenger: the records that the
//! application keeps between runs, the decisions about what is written to
//! disk for each change, and the cipher that protects a remembered password.
//!
//! The library holds no file handle and takes no lock. Its callers read and
//! write the files; they hand in what they found and carry out the
//! [`store::DiskAction`] that comes back.
//!
//! - [`cipher`]: sealing and opening a remembered password.
//! - [`encryption_key`]: the key file and the key in it.
//! - [`store`]: what was found on disk, and what is to be done to it.
//! - [`auth`], [`auth_preferences`], [`settings`]: the three record stores.
//! - [`desktop`]: names and addresses that the desktop shell works out.
//! - [`error`]: the failures.

use vstd::prelude::*;
use crate::store::{clone_text_opt, text_opt_view};

pub mod error;
pub mod cipher;
pub mod encryption_key;
pub mod store;
pub mod auth;
pub mod auth_preferences;
pub mod settings;
pub mod desktop;

verus! {

/// What the whole application knows of itself: the profile it runs under,
/// if any. Each profile has a data directory of its own.
pub struct AppState {
    profile: Option<String>,
}

impl View for AppState {
    type V = Option<Seq<char>>;

    closed spec fn view(&self) -> Option<Seq<char>> {
        text_opt_view(self.profile)
    }
}

impl AppState {
    /// The state of an application that runs under `profile`.
    pub fn new(profile: Option<String>) -> (state: Self)
        ensures
            state@ == text_opt_view(profile),
    {
        AppState { profile }
    }

    /// The name of the profile, if the application runs under one.
    pub fn get_profile(&self) -> (profile: Option<String>)
        ensures
            text_opt_view(profile) == self@,
    {
        clone_text_opt(&self.profile)
    }
}

} // verus!
