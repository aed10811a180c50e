//! The encryption key of an installation: 32 random bytes, made once and
//! kept in a file of their own beside the preferences file.

use vstd::prelude::*;
use crate::cipher::KEY_LEN;
use crate::error::StoreError;
use rand::Rng;

verus! {

/// The name of the key file. It stands in the directory of the preferences
/// file, under a name that no document of the store has.
pub fn key_file_name() -> (name: &'static str)
    ensures
        name@ == ".encryption_key"@,
{
    ".encryption_key"
}

/// What the caller found at the key file's path.
#[derive(Debug, PartialEq, Eq)]
pub enum KeyFile {
    /// No file: no key was made yet.
    Missing,
    /// A file that could not be read.
    Unreadable,
    /// The bytes of the file.
    Present(Vec<u8>),
}

/// What is to be done about the key.
#[derive(Debug, PartialEq, Eq)]
pub enum KeyPlan {
    /// The key that the file holds.
    Use([u8; 32]),
    /// A new key. The caller writes its 32 bytes to the key file, restricts
    /// the file to its owner, and only then uses the key.
    Create([u8; 32]),
    /// No key can be had.
    Fail(StoreError),
}

/// What a key file's contents say about the key, in terms of the views of
/// the file's bytes and of the plan's key. A file of 32 bytes is the key; a
/// file of any other length is an `Io` error, never padded or cut; an
/// unreadable file is an `Io` error; with no file a key is made, and of a
/// new key nothing is known.
pub open spec fn key_plan_for(file: KeyFile, plan: KeyPlan) -> bool {
    match file {
        KeyFile::Present(data) => if data@.len() == KEY_LEN {
            plan matches KeyPlan::Use(key) && key@ == data@
        } else {
            plan == KeyPlan::Fail(StoreError::Io)
        },
        KeyFile::Unreadable => plan == KeyPlan::Fail(StoreError::Io),
        KeyFile::Missing => plan is Create,
    }
}

/// Calls `Rng::gen` of the `rand` crate on the thread's generator, for 32
/// bytes. Nothing is claimed of them.
#[verifier::external_body]
fn random_key() -> (key: [u8; 32]) {
    let mut rng = rand::thread_rng();
    rng.gen()
}

/// Reads a key from the bytes of a key file: exactly 32 bytes are the key,
/// any other length is an `Io` error.
pub fn key_from_bytes(data: &Vec<u8>) -> (key: Result<[u8; 32], StoreError>)
    ensures
        data@.len() == KEY_LEN ==> (key matches Ok(k) && k@ == data@),
        data@.len() != KEY_LEN ==> key == Err::<[u8; 32], StoreError>(StoreError::Io),
{
    if data.len() != KEY_LEN {
        return Err(StoreError::Io);
    }
    let mut key: [u8; 32] = [0u8; 32];
    let mut i: usize = 0;
    while i < KEY_LEN
        invariant
            i <= KEY_LEN,
            data@.len() == KEY_LEN,
            forall|k: int| 0 <= k < i ==> key@[k] == data@[k],
        decreases KEY_LEN - i,
    {
        key[i] = data[i];
        i += 1;
    }
    assert(key@ =~= data@);
    Ok(key)
}

/// The bytes to write to the key file for a key.
pub fn key_to_bytes(key: &[u8; 32]) -> (data: Vec<u8>)
    ensures
        data@ == key@,
{
    let mut data: Vec<u8> = Vec::with_capacity(KEY_LEN);
    let mut i: usize = 0;
    while i < KEY_LEN
        invariant
            i <= KEY_LEN,
            data@ == key@.subrange(0, i as int),
        decreases KEY_LEN - i,
    {
        data.push(key[i]);
        i += 1;
        assert(data@ =~= key@.subrange(0, i as int));
    }
    assert(key@.subrange(0, KEY_LEN as int) =~= key@);
    data
}

/// Decides about the key from what was found at the key file's path: the
/// stored key where there is one, a fresh random key where there is no
/// file, a failure otherwise.
pub fn get_or_create_encryption_key(file: KeyFile) -> (plan: KeyPlan)
    ensures
        key_plan_for(file, plan),
{
    match file {
        KeyFile::Present(data) => match key_from_bytes(&data) {
            Ok(key) => KeyPlan::Use(key),
            Err(e) => KeyPlan::Fail(e),
        },
        KeyFile::Unreadable => KeyPlan::Fail(StoreError::Io),
        KeyFile::Missing => KeyPlan::Create(random_key()),
    }
}

/// Key stability. Once a key was made and its bytes were written to the key
/// file, every later decision on that file is to use a key with the same
/// bytes: none makes another key, and none fails.
pub proof fn lemma_stored_key_is_stable(key: [u8; 32], file: KeyFile, plan: KeyPlan)
    requires
        file matches KeyFile::Present(data) && data@ == key@,
        key_plan_for(file, plan),
    ensures
        plan matches KeyPlan::Use(found) && found@ == key@,
{
}

/// A key file that was cut short, or that holds more than a key, yields no
/// key.
pub proof fn lemma_wrong_length_fails(file: KeyFile, plan: KeyPlan)
    requires
        file matches KeyFile::Present(data) && data@.len() != KEY_LEN,
        key_plan_for(file, plan),
    ensures
        plan == KeyPlan::Fail(StoreError::Io),
{
}

} // verus!
