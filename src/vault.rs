//! The API key kept in the platform credential vault, through `keyring`.
//!
//! What the vault answers depends on the machine, so each call is followed
//! by a verified function that takes the answer as an argument and says
//! exactly what the library makes of it.

use vstd::prelude::*;
use crate::text::{prefixed, starts_with};

verus! {

broadcast use crate::text::lemma_starts_with_concat;

/// The vault service under which the key is stored.
pub const SERVICE: &'static str = "ShortcutAI";

/// The vault user name under which the key is stored.
pub const USER: &'static str = "api_key";

/// Start of the message when the vault entry cannot be opened.
pub const ACCESS_FAILED: &'static str = "Failed to access keyring: ";

/// Start of the message when the key cannot be stored.
pub const SAVE_FAILED: &'static str = "Failed to save API key to keyring: ";

/// Start of the message when the key cannot be read.
pub const LOAD_FAILED: &'static str = "Failed to load API key from keyring: ";

/// Start of the message when the key cannot be removed.
pub const DELETE_FAILED: &'static str = "Failed to delete API key from keyring: ";

#[verifier::external_type_specification]
#[verifier::external_body]
pub struct ExEntry(keyring::Entry);

#[verifier::external_type_specification]
#[verifier::external_body]
pub struct ExKeyringError(keyring::Error);

/// Relies on `keyring::Entry::new`: it opens an entry of the platform's
/// default store, which may fail.
pub assume_specification[ keyring::Entry::new ](service: &str, user: &str) -> (r: keyring::Result<
    keyring::Entry,
>);

/// Relies on `keyring::Entry::set_password`: it stores a password, which
/// may fail.
pub assume_specification[ keyring::Entry::set_password ](
    entry: &keyring::Entry,
    password: &str,
) -> (r: keyring::Result<()>);

/// Relies on `keyring::Entry::get_password`: it reads the stored password,
/// which may fail.
pub assume_specification[ keyring::Entry::get_password ](entry: &keyring::Entry) -> (r:
    keyring::Result<String>);

/// Relies on `keyring::Entry::delete_password`: it removes the stored
/// password, which may fail.
pub assume_specification[ keyring::Entry::delete_password ](entry: &keyring::Entry) -> (r:
    keyring::Result<()>);

/// `r` is a failure whose message is `message`.
pub open spec fn failed_with<T>(r: Result<T, String>, message: Seq<char>) -> bool {
    r matches Err(m) && m@ == message
}

/// A failure reported by the vault.
pub struct VaultFault {
    /// The vault holds no entry for the key.
    pub no_entry: bool,
    /// The vault's description of the failure.
    pub message: String,
}

/// Relies on `keyring::Error`: its `NoEntry` variant tells a missing entry
/// apart from the other failures, and its `Display` impl describes it.
#[verifier::external_body]
fn fault_of(error: keyring::Error) -> (r: VaultFault) {
    let no_entry = match &error {
        keyring::Error::NoEntry => true,
        _ => false,
    };
    VaultFault { no_entry, message: error.to_string() }
}

/// The message for a vault entry that could not be opened.
pub fn access_failure(fault: &VaultFault) -> (r: String)
    ensures
        r@ == ACCESS_FAILED@ + fault.message@,
{
    prefixed(ACCESS_FAILED, fault.message.as_str())
}

/// What storing the key comes to, given what the vault answered.
pub fn save_outcome(answer: Result<(), VaultFault>) -> (r: Result<(), String>)
    ensures
        answer is Ok <==> r is Ok,
        answer matches Err(f) ==> failed_with(r, SAVE_FAILED@ + f.message@),
{
    match answer {
        Ok(()) => Ok(()),
        Err(f) => Err(prefixed(SAVE_FAILED, f.message.as_str())),
    }
}

/// What reading the key comes to, given what the vault answered: the key,
/// no key when the vault holds no entry, or a message for any other failure.
pub fn load_outcome(answer: Result<String, VaultFault>) -> (r: Result<Option<String>, String>)
    ensures
        answer matches Ok(p) ==> r == Ok::<Option<String>, String>(Some(p)),
        answer matches Err(f) ==> if f.no_entry {
            r == Ok::<Option<String>, String>(None)
        } else {
            failed_with(r, LOAD_FAILED@ + f.message@)
        },
{
    match answer {
        Ok(password) => Ok(Some(password)),
        Err(f) => {
            if f.no_entry {
                Ok(None)
            } else {
                Err(prefixed(LOAD_FAILED, f.message.as_str()))
            }
        },
    }
}

/// What removing the key comes to, given what the vault answered: a key
/// that is already absent counts as removed.
pub fn delete_outcome(answer: Result<(), VaultFault>) -> (r: Result<(), String>)
    ensures
        r is Ok <==> (answer is Ok || (answer matches Err(f) && f.no_entry)),
        answer matches Err(f) ==> (!f.no_entry ==> failed_with(r, DELETE_FAILED@ + f.message@)),
{
    match answer {
        Ok(()) => Ok(()),
        Err(f) => {
            if f.no_entry {
                Ok(())
            } else {
                Err(prefixed(DELETE_FAILED, f.message.as_str()))
            }
        },
    }
}

/// Opens the vault entry that holds the API key.
pub fn get_keyring_entry() -> (r: Result<keyring::Entry, String>)
    ensures
        r matches Err(m) ==> starts_with(m@, ACCESS_FAILED@),
{
    match keyring::Entry::new(SERVICE, USER) {
        Ok(entry) => Ok(entry),
        Err(error) => Err(access_failure(&fault_of(error))),
    }
}

/// Stores `api_key` in the vault.
pub fn save_api_key_secure(api_key: &str) -> (r: Result<(), String>)
    ensures
        r matches Err(m) ==> starts_with(m@, ACCESS_FAILED@) || starts_with(m@, SAVE_FAILED@),
{
    let entry = get_keyring_entry()?;
    let answer = match entry.set_password(api_key) {
        Ok(()) => Ok(()),
        Err(error) => Err(fault_of(error)),
    };
    save_outcome(answer)
}

/// Reads the API key from the vault: `None` when none is stored.
pub fn load_api_key_secure() -> (r: Result<Option<String>, String>)
    ensures
        r matches Err(m) ==> starts_with(m@, ACCESS_FAILED@) || starts_with(m@, LOAD_FAILED@),
{
    let entry = get_keyring_entry()?;
    let answer = match entry.get_password() {
        Ok(password) => Ok(password),
        Err(error) => Err(fault_of(error)),
    };
    load_outcome(answer)
}

/// Removes the API key from the vault; a key already absent is no failure.
pub fn delete_api_key_secure() -> (r: Result<(), String>)
    ensures
        r matches Err(m) ==> starts_with(m@, ACCESS_FAILED@) || starts_with(m@, DELETE_FAILED@),
{
    let entry = get_keyring_entry()?;
    let answer = match entry.delete_password() {
        Ok(()) => Ok(()),
        Err(error) => Err(fault_of(error)),
    };
    delete_outcome(answer)
}

} // verus!
