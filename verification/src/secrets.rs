use vstd::prelude::*;
use vstd::string::*;
use crate::errors::{AppError, AppResult};
use crate::text::join2;

verus! {

#[verifier::external_type_specification]
#[verifier::external_body]
pub struct ExEntry(keyring::Entry);

#[verifier::external_type_specification]
#[verifier::external_body]
pub struct ExKeyringError(keyring::Error);

/// The service under which the application's secrets are stored.
pub const SERVICE: &'static str = "ai.walli.app";

/// An entry of the platform's credential store, with the service and the
/// user it was opened for.
pub struct KeyringEntry {
    service: String,
    user: String,
    entry: keyring::Entry,
}

impl KeyringEntry {
    /// The service the entry was opened for.
    pub closed spec fn service_of(&self) -> Seq<char> {
        self.service@
    }

    /// The user the entry was opened for.
    pub closed spec fn user_of(&self) -> Seq<char> {
        self.user@
    }

    /// The service the entry was opened for.
    pub fn service(&self) -> (r: &str)
        ensures
            r@ == self.service_of(),
    {
        self.service.as_str()
    }

    /// The user the entry was opened for.
    pub fn user(&self) -> (r: &str)
        ensures
            r@ == self.user_of(),
    {
        self.user.as_str()
    }
}

/// `keyring::Entry::new`.  Whether it succeeds depends on the platform's
/// credential store, so success is not claimed; an entry it opens is
/// recorded with the service and the user it was opened for.
#[verifier::external_body]
fn entry_new(service: &str, user: &str) -> (r: Result<KeyringEntry, keyring::Error>)
    ensures
        r matches Ok(e) ==> e.service_of() == service@ && e.user_of() == user@,
{
    match keyring::Entry::new(service, user) {
        Ok(entry) => Ok(KeyringEntry { service: service.to_string(), user: user.to_string(), entry }),
        Err(e) => Err(e),
    }
}

/// `keyring::Entry::set_password`.  Its outcome depends on the credential
/// store; nothing is claimed.
#[verifier::external_body]
fn entry_set_password(entry: &keyring::Entry, password: &str) -> Result<(), keyring::Error> {
    entry.set_password(password)
}

/// `keyring::Entry::get_password`.  What it reads depends on the credential
/// store; nothing is claimed.
#[verifier::external_body]
fn entry_get_password(entry: &keyring::Entry) -> Result<String, keyring::Error> {
    entry.get_password()
}

/// `keyring::Entry::delete_credential`.  Its outcome depends on the
/// credential store; nothing is claimed.
#[verifier::external_body]
fn entry_delete_credential(entry: &keyring::Entry) -> Result<(), keyring::Error> {
    entry.delete_credential()
}

/// Whether a keyring error is `keyring::Error::NoEntry`.  Nothing is
/// claimed: the error is opaque to the library.
#[verifier::external_body]
fn is_no_entry(e: &keyring::Error) -> bool {
    matches!(e, keyring::Error::NoEntry)
}

/// The text that a keyring error's `Display` writes.  Nothing is claimed.
#[verifier::external_body]
fn keyring_error_text(e: &keyring::Error) -> String {
    e.to_string()
}

/// A failure of the credential store, as plain values.
pub struct KeyringFailure {
    /// The store holds no secret under the name.
    pub no_entry: bool,
    /// The failure's text.
    pub text: String,
}

fn failure_of(e: &keyring::Error) -> KeyringFailure {
    KeyringFailure { no_entry: is_no_entry(e), text: keyring_error_text(e) }
}

/// The error that a failure of the store becomes, with its context.
pub open spec fn failure_message(context: Seq<char>, f: KeyringFailure) -> Seq<char> {
    context + ": "@ + f.text@
}

fn internal(context: &str, f: &KeyringFailure) -> (r: AppError)
    ensures
        r matches AppError::Internal(m) && m@ == failure_message(context@, *f),
{
    let head = join2(context, ": ");
    AppError::Internal(join2(head.as_str(), f.text.as_str()))
}

/// What reading a secret gives: the secret, `None` when the store holds
/// none, and `Internal("keyring get: ...")` for any other failure.
pub fn lookup_outcome(read: Result<String, KeyringFailure>) -> (r: AppResult<Option<String>>)
    ensures
        read matches Ok(v) ==> r == Ok::<Option<String>, AppError>(Some(v)),
        read is Err && read->Err_0.no_entry ==> r == Ok::<Option<String>, AppError>(None),
        read is Err && !read->Err_0.no_entry ==> (r matches Err(AppError::Internal(m))
            && m@ == failure_message("keyring get"@, read->Err_0)),
{
    match read {
        Ok(v) => Ok(Some(v)),
        Err(f) => {
            if f.no_entry {
                Ok(None)
            } else {
                Err(internal("keyring get", &f))
            }
        },
    }
}

/// What deleting a secret gives: success also when there was none, and
/// `Internal("keyring delete: ...")` for any other failure.
pub fn delete_outcome(deleted: Result<(), KeyringFailure>) -> (r: AppResult<()>)
    ensures
        deleted is Ok ==> r is Ok,
        deleted is Err && deleted->Err_0.no_entry ==> r is Ok,
        deleted is Err && !deleted->Err_0.no_entry ==> (r matches Err(AppError::Internal(m))
            && m@ == failure_message("keyring delete"@, deleted->Err_0)),
{
    match deleted {
        Ok(()) => Ok(()),
        Err(f) => {
            if f.no_entry {
                Ok(())
            } else {
                Err(internal("keyring delete", &f))
            }
        },
    }
}

/// Whether a lookup found a secret: `matches!(lookup, Ok(Some(_)))`.
pub fn found(lookup: &AppResult<Option<String>>) -> (r: bool)
    ensures
        r == (lookup matches Ok(Some(_))),
{
    match lookup {
        Ok(Some(_)) => true,
        _ => false,
    }
}

/// The entry that holds the secret of `source`: service `ai.walli.app`, user `source`.
pub fn open_entry(source: &str) -> (r: AppResult<KeyringEntry>)
    ensures
        r matches Ok(e) ==> e.service_of() == SERVICE@ && e.user_of() == source@,
        r matches Err(e) ==> (e matches AppError::Internal(m) && exists|f: KeyringFailure|
            m@ == failure_message("keyring"@, f)),
{
    match entry_new(SERVICE, source) {
        Ok(e) => Ok(e),
        Err(e) => {
            let f = failure_of(&e);
            Err(internal("keyring", &f))
        },
    }
}

/// Stores `key` as the secret of `source`.
pub fn set(source: &str, key: &str) -> (r: AppResult<()>)
    ensures
        r matches Err(e) ==> (e matches AppError::Internal(m) && (exists|f: KeyringFailure|
            m@ == failure_message("keyring"@, f) || m@ == failure_message("keyring set"@, f))),
{
    let entry = open_entry(source)?;
    match entry_set_password(&entry.entry, key) {
        Ok(()) => Ok(()),
        Err(e) => {
            let f = failure_of(&e);
            Err(internal("keyring set", &f))
        },
    }
}

/// The secret of `source`, `None` when there is none.
pub fn get(source: &str) -> (r: AppResult<Option<String>>)
    ensures
        r matches Err(e) ==> (e matches AppError::Internal(m) && (exists|f: KeyringFailure|
            m@ == failure_message("keyring"@, f) || m@ == failure_message("keyring get"@, f))),
{
    let entry = open_entry(source)?;
    let read = match entry_get_password(&entry.entry) {
        Ok(v) => Ok(v),
        Err(e) => Err(failure_of(&e)),
    };
    lookup_outcome(read)
}

/// Deletes the secret of `source`; deleting a secret that is not there succeeds.
pub fn clear(source: &str) -> (r: AppResult<()>)
    ensures
        r matches Err(e) ==> (e matches AppError::Internal(m) && (exists|f: KeyringFailure|
            m@ == failure_message("keyring"@, f) || m@ == failure_message("keyring delete"@, f))),
{
    let entry = open_entry(source)?;
    let deleted = match entry_delete_credential(&entry.entry) {
        Ok(()) => Ok(()),
        Err(e) => Err(failure_of(&e)),
    };
    delete_outcome(deleted)
}

/// Whether a secret of `source` can be read.
pub fn has(source: &str) -> bool {
    let r = get(source);
    found(&r)
}

} // verus!
