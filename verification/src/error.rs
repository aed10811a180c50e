//! The failures that the store reports.

use vstd::prelude::*;

verus! {

/// Why an operation of the store failed. No failure changes the record held
/// in memory.
#[derive(Clone, Copy, Debug, PartialEq, Eq, Structural)]
pub enum StoreError {
    /// A file could not be read or written, or the key file has the wrong
    /// length.
    Io,
    /// A document could not be parsed, or a ciphertext blob is not base64 or
    /// is shorter than a nonce.
    Format,
    /// A decrypted password is not valid UTF-8.
    Encoding,
    /// The authentication tag of a ciphertext blob does not verify: the blob
    /// was altered or sealed under another key.
    Authentication,
    /// The operation needs a signed-in session and there is none.
    State,
    /// The password is longer than the cipher accepts.
    Encryption,
}

/// The text that stands for each failure.
pub open spec fn message_text(error: StoreError) -> Seq<char> {
    match error {
        StoreError::Io => "Storage failure"@,
        StoreError::Format => "Stored data is malformed"@,
        StoreError::Encoding => "Saved password could not be restored"@,
        StoreError::Authentication => "Saved password could not be restored"@,
        StoreError::State => "No user is currently authenticated"@,
        StoreError::Encryption => "Encryption failed"@,
    }
}

impl StoreError {
    /// A text for the user. A password that does not decrypt is shown as a
    /// saved password that could not be restored, never as a fault of the
    /// cipher.
    pub fn message(&self) -> (text: String)
        ensures
            text@ == message_text(*self),
    {
        match self {
            StoreError::Io => "Storage failure".to_owned(),
            StoreError::Format => "Stored data is malformed".to_owned(),
            StoreError::Encoding => "Saved password could not be restored".to_owned(),
            StoreError::Authentication => "Saved password could not be restored".to_owned(),
            StoreError::State => "No user is currently authenticated".to_owned(),
            StoreError::Encryption => "Encryption failed".to_owned(),
        }
    }
}

} // verus!
