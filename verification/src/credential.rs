//! The credential store: one slot that holds the refresh token, and beside
//! it the plaintext file in which earlier versions kept that token.
//!
//! `CredentialStore` keeps both in memory and states what the operations on
//! them mean. A store behind the system's secret vault answers with the
//! outcomes below; what to make of each outcome is decided here.

use vstd::prelude::*;
use crate::error::{AuthError, AuthErrorView};
use crate::text::{is_blank, lemma_trimmed, str_is_blank, trim, trimmed};

verus! {

/// Why an operation of the store failed.
#[derive(Debug)]
pub enum StoreError {
    /// The slot is empty.
    NoEntry,
    /// The store is unavailable or denied access.
    Unavailable { reason: String },
}

/// A `StoreError` as plain values.
pub enum StoreErrorView {
    NoEntry,
    Unavailable { reason: Seq<char> },
}

impl View for StoreError {
    type V = StoreErrorView;

    open spec fn view(&self) -> StoreErrorView {
        match *self {
            StoreError::NoEntry => StoreErrorView::NoEntry,
            StoreError::Unavailable { reason } => StoreErrorView::Unavailable { reason: reason@ },
        }
    }
}

/// What a store holds: the secret in its slot, and the text of the legacy
/// file where there is one.
pub struct StoreView {
    pub secret: Option<Seq<char>>,
    pub legacy: Option<Seq<char>>,
}

/// A store after `put`: the slot holds the new secret, whatever it held.
pub open spec fn after_put(s: StoreView, secret: Seq<char>) -> StoreView {
    StoreView { secret: Some(secret), legacy: s.legacy }
}

/// A store after `clear`: nothing in the slot, and no legacy file.
pub open spec fn after_clear(s: StoreView) -> StoreView {
    StoreView { secret: None, legacy: None }
}

/// A store after the migration: the legacy file is gone, and the token in
/// it, trimmed, has taken the slot unless the file was blank.
pub open spec fn after_migration(s: StoreView) -> StoreView {
    match s.legacy {
        None => s,
        Some(text) => if is_blank(text) {
            StoreView { secret: s.secret, legacy: None }
        } else {
            StoreView { secret: Some(trimmed(text)), legacy: None }
        },
    }
}

/// What `get` answers.
pub open spec fn get_result(s: StoreView) -> Result<Seq<char>, StoreErrorView> {
    match s.secret {
        Some(secret) => Ok(secret),
        None => Err(StoreErrorView::NoEntry),
    }
}

/// The view of what `get` returned.
pub open spec fn loaded_view(r: Result<String, StoreError>) -> Result<Seq<char>, StoreErrorView> {
    match r {
        Ok(secret) => Ok(secret@),
        Err(e) => Err(e@),
    }
}

/// A credential store in memory.
pub struct CredentialStore {
    secret: Option<String>,
    legacy: Option<String>,
}

impl View for CredentialStore {
    type V = StoreView;

    closed spec fn view(&self) -> StoreView {
        StoreView { secret: self.secret.deep_view(), legacy: self.legacy.deep_view() }
    }
}

impl CredentialStore {
    /// A store with an empty slot and no legacy file.
    pub fn new() -> (r: CredentialStore)
        ensures
            r@ == (StoreView { secret: None, legacy: None }),
    {
        CredentialStore { secret: None, legacy: None }
    }

    /// A store with an empty slot beside a legacy file that holds `text`.
    pub fn with_legacy_file(text: &str) -> (r: CredentialStore)
        ensures
            r@ == (StoreView { secret: None, legacy: Some(text@) }),
    {
        CredentialStore { secret: None, legacy: Some(text.to_owned()) }
    }

    /// Puts `secret` in the slot, in place of what was there.
    pub fn put(&mut self, secret: &str) -> (r: Result<(), StoreError>)
        ensures
            r is Ok,
            final(self)@ == after_put(old(self)@, secret@),
    {
        self.secret = Some(secret.to_owned());
        Ok(())
    }

    /// The secret in the slot; `NoEntry` where it is empty.
    pub fn get(&self) -> (r: Result<String, StoreError>)
        ensures
            loaded_view(r) == get_result(self@),
    {
        match &self.secret {
            Some(secret) => Ok(secret.clone()),
            None => Err(StoreError::NoEntry),
        }
    }

    /// Empties the slot and removes the legacy file. An empty slot is no
    /// error.
    pub fn clear(&mut self) -> (r: Result<(), StoreError>)
        ensures
            r is Ok,
            final(self)@ == after_clear(old(self)@),
    {
        self.secret = None;
        self.legacy = None;
        Ok(())
    }

    /// Moves the token of the legacy file into the slot, as
    /// `after_migration` says.
    pub fn migrate(&mut self)
        ensures
            final(self)@ == after_migration(old(self)@),
    {
        let plan = match &self.legacy {
            Some(text) => plan_migration(Some(text.as_str())),
            None => plan_migration(None),
        };
        match plan {
            Migration::Nothing => {},
            Migration::RemoveFile => {
                self.legacy = None;
            },
            Migration::StoreThenRemoveFile { token } => {
                self.secret = Some(token);
                self.legacy = None;
            },
        }
    }
}

/// `put`, then `get`, gives back what was put.
pub proof fn lemma_put_then_get(s: StoreView, secret: Seq<char>)
    requires
        secret.len() > 0,
    ensures
        get_result(after_put(s, secret)) == Ok::<Seq<char>, StoreErrorView>(secret),
{
}

/// A second `put` wins over the first.
pub proof fn lemma_last_put_wins(s: StoreView, first: Seq<char>, second: Seq<char>)
    ensures
        after_put(after_put(s, first), second) == after_put(s, second),
{
}

/// `clear` twice is `clear` once: the second finds nothing to do, and that
/// is no error.
pub proof fn lemma_clear_is_idempotent(s: StoreView)
    ensures
        after_clear(after_clear(s)) == after_clear(s),
        get_result(after_clear(s)) == Err::<Seq<char>, StoreErrorView>(StoreErrorView::NoEntry),
{
}

/// The migration runs once: after it there is no legacy file, so a second
/// run changes nothing.
pub proof fn lemma_migration_runs_once(s: StoreView)
    ensures
        after_migration(s).legacy is None,
        after_migration(after_migration(s)) == after_migration(s),
{
}

/// What the migration routine has to do.
#[derive(Debug)]
pub enum Migration {
    /// There is no legacy file.
    Nothing,
    /// The legacy file is blank: remove it, write nothing.
    RemoveFile,
    /// Put `token` in the slot; once that is done, remove the file.
    StoreThenRemoveFile { token: String },
}

/// A `Migration` as plain values.
pub enum MigrationView {
    Nothing,
    RemoveFile,
    StoreThenRemoveFile { token: Seq<char> },
}

impl View for Migration {
    type V = MigrationView;

    open spec fn view(&self) -> MigrationView {
        match *self {
            Migration::Nothing => MigrationView::Nothing,
            Migration::RemoveFile => MigrationView::RemoveFile,
            Migration::StoreThenRemoveFile { token } => MigrationView::StoreThenRemoveFile {
                token: token@,
            },
        }
    }
}

/// What to do about a legacy file with the given text, `None` where there
/// is no such file.
pub open spec fn migration_plan(legacy: Option<Seq<char>>) -> MigrationView {
    match legacy {
        None => MigrationView::Nothing,
        Some(text) => if is_blank(text) {
            MigrationView::RemoveFile
        } else {
            MigrationView::StoreThenRemoveFile { token: trimmed(text) }
        },
    }
}

/// Decides `migration_plan`.
pub fn plan_migration(legacy: Option<&str>) -> (r: Migration)
    ensures
        r@ == migration_plan(
            match legacy {
                Some(text) => Some(text@),
                None => None,
            },
        ),
{
    match legacy {
        None => Migration::Nothing,
        Some(text) => {
            if str_is_blank(text) {
                Migration::RemoveFile
            } else {
                Migration::StoreThenRemoveFile { token: trim(text) }
            }
        },
    }
}

/// A token that the migration stores is never empty and has no whitespace
/// around it.
pub proof fn lemma_migrated_token(legacy: Option<Seq<char>>)
    ensures
        migration_plan(legacy) matches MigrationView::StoreThenRemoveFile { token } ==> token.len()
            > 0 && !crate::text::is_space(token.first()) && !crate::text::is_space(token.last()),
{
    match legacy {
        Some(text) => {
            lemma_trimmed(text);
        },
        None => {},
    }
}

/// How the vault answered a request to delete the entry.
#[derive(Debug, Clone)]
pub enum DeleteOutcome {
    /// The entry was deleted.
    Deleted,
    /// There was no entry.
    NoEntry,
    /// The vault failed.
    Failed { reason: String },
}

/// A `DeleteOutcome` as plain values.
pub enum DeleteOutcomeView {
    Deleted,
    NoEntry,
    Failed { reason: Seq<char> },
}

impl View for DeleteOutcome {
    type V = DeleteOutcomeView;

    open spec fn view(&self) -> DeleteOutcomeView {
        match *self {
            DeleteOutcome::Deleted => DeleteOutcomeView::Deleted,
            DeleteOutcome::NoEntry => DeleteOutcomeView::NoEntry,
            DeleteOutcome::Failed { reason } => DeleteOutcomeView::Failed { reason: reason@ },
        }
    }
}

/// The error, if any, in an answer to a request to delete the entry: a
/// missing entry is none.
pub open spec fn clear_error(outcome: DeleteOutcomeView) -> Option<AuthErrorView> {
    match outcome {
        DeleteOutcomeView::Deleted => None,
        DeleteOutcomeView::NoEntry => None,
        DeleteOutcomeView::Failed { reason } => Some(
            AuthErrorView::CredentialStore { reason: "Failed to clear keyring: "@ + reason },
        ),
    }
}

/// Judges how the vault answered a request to delete the entry. Where this
/// is `Ok`, the legacy file is to be removed too, if there is one.
pub fn clear_keychain_entry(outcome: DeleteOutcome) -> (r: Result<(), AuthError>)
    ensures
        match clear_error(outcome@) {
            Some(e) => r matches Err(error) && error@ == e,
            None => r is Ok,
        },
{
    match outcome {
        DeleteOutcome::Deleted => Ok(()),
        DeleteOutcome::NoEntry => Ok(()),
        DeleteOutcome::Failed { reason } => {
            let mut text = String::from_str("Failed to clear keyring: ");
            text.append(reason.as_str());
            Err(AuthError::CredentialStore { reason: text })
        },
    }
}

} // verus!
