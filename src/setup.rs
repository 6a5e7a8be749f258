//! The user's setup, and how it is split between the setup file and the
//! credential vault: the file never keeps the API key, and a key left in
//! a file written by an older release is moved into the vault.

use vstd::prelude::*;

verus! {

/// A named prompt that the user can run on captured text.
#[derive(Clone)]
pub struct Action {
    pub id: String,
    pub name: String,
    pub prompt: String,
    pub created_at: String,
    pub last_used_at: Option<String>,
}

/// The setup as the front end sees it, API key included.
#[derive(Clone)]
pub struct SetupPayload {
    pub provider: String,
    pub api_key: String,
    pub actions: Vec<Action>,
    pub default_action_id: Option<String>,
    pub setup_completed_at: String,
}

/// The setup as the setup file holds it. `api_key` is only ever present in
/// a file written by an older release.
#[derive(Clone)]
pub struct SetupFile {
    pub provider: String,
    pub actions: Vec<Action>,
    pub default_action_id: Option<String>,
    pub setup_completed_at: String,
    pub api_key: Option<String>,
}

/// The file `file` with its key taken out.
pub open spec fn without_key(file: SetupFile) -> SetupFile {
    SetupFile { api_key: None, ..file }
}

/// The key that a setup file still holds and that is to move to the vault:
/// present and not empty.
pub open spec fn legacy_key(file: SetupFile) -> Option<String> {
    match file.api_key {
        Some(k) => if k@.len() > 0 {
            Some(k)
        } else {
            None
        },
        None => None,
    }
}

/// The setup file written for `setup`: everything but the key.
pub open spec fn file_of(setup: SetupPayload) -> SetupFile {
    SetupFile {
        provider: setup.provider,
        actions: setup.actions,
        default_action_id: setup.default_action_id,
        setup_completed_at: setup.setup_completed_at,
        api_key: None,
    }
}

/// The setup assembled from a setup file and the key read from the vault.
pub open spec fn payload_of(file: SetupFile, api_key: String) -> SetupPayload {
    SetupPayload {
        provider: file.provider,
        api_key,
        actions: file.actions,
        default_action_id: file.default_action_id,
        setup_completed_at: file.setup_completed_at,
    }
}

/// Splits a setup file read from disk into the file without its key and
/// the key to move into the vault, if it holds a non-empty one. The file
/// is rewritten only when there is such a key.
pub fn split_legacy_key(file: SetupFile) -> (r: (SetupFile, Option<String>))
    ensures
        r.0 == without_key(file),
        r.1 == legacy_key(file),
{
    let SetupFile { provider, actions, default_action_id, setup_completed_at, api_key } = file;
    let legacy = match api_key {
        Some(k) => if k.as_str().is_empty() {
            None
        } else {
            Some(k)
        },
        None => None,
    };
    (SetupFile { provider, actions, default_action_id, setup_completed_at, api_key: None }, legacy)
}

/// The setup handed to the front end, from the setup file and the key the
/// vault holds: an empty key when it holds none.
pub fn payload_from_file(file: SetupFile, stored_key: Option<String>) -> (r: SetupPayload)
    ensures
        stored_key matches Some(k) ==> r == payload_of(file, k),
        stored_key is None ==> r.api_key@.len() == 0 && r == payload_of(file, r.api_key),
{
    let api_key = match stored_key {
        Some(k) => k,
        None => String::new(),
    };
    SetupPayload {
        provider: file.provider,
        api_key,
        actions: file.actions,
        default_action_id: file.default_action_id,
        setup_completed_at: file.setup_completed_at,
    }
}

/// Splits the setup from the front end into the setup file, which holds no
/// key, and the key that goes to the vault.
pub fn file_from_payload(setup: SetupPayload) -> (r: (SetupFile, String))
    ensures
        r.0 == file_of(setup),
        r.1 == setup.api_key,
{
    let SetupPayload { provider, api_key, actions, default_action_id, setup_completed_at } = setup;
    (SetupFile { provider, actions, default_action_id, setup_completed_at, api_key: None }, api_key)
}

/// Saving a setup and loading it back, with the vault returning the key
/// that was stored, gives the same setup.
pub proof fn lemma_save_then_load(setup: SetupPayload)
    ensures
        payload_of(file_of(setup), setup.api_key) == setup,
        legacy_key(file_of(setup)) is None,
{
}

/// Moving a legacy key out of a setup file leaves a file that has none to
/// move, and loading either file gives the same setup.
pub proof fn lemma_migration_keeps_setup(file: SetupFile, api_key: String)
    ensures
        legacy_key(without_key(file)) is None,
        without_key(without_key(file)) == without_key(file),
        payload_of(without_key(file), api_key) == payload_of(file, api_key),
{
}

} // verus!
