//! Data carried by the user CRUD endpoints and the status decisions their
//! handlers make. The storage calls themselves, and the HTTP plumbing, are
//! outside this crate; these functions decide what each storage answer
//! surfaces as.

use vstd::prelude::*;
use crate::error::RepositoryError;

verus! {

/// One user record; the storage id travels as its hex string form.
#[derive(Debug, Clone)]
pub struct User {
    pub id: Option<String>,
    pub name: String,
    pub location: String,
    pub title: String,
}

/// The answer to a successful create: the new record's id.
#[derive(Debug, Clone)]
pub struct CreateUserResult {
    pub id: String,
}

/// The answer to an update: how many records matched and changed.
#[derive(Debug, Clone)]
pub struct UpdateUserResult {
    pub matched_count: u64,
    pub modified_count: u64,
    pub upserted_id: String,
}

/// The answer to a delete: how many records went away.
#[derive(Debug, Clone)]
pub struct DeleteUserResult {
    pub deleted_count: u64,
}

/// Whether a path id is usable at all: the empty id is turned away before
/// any storage call is made.
pub fn user_id_acceptable(id: &String) -> (r: bool)
    ensures
        r == (id@.len() > 0),
{
    !id.as_str().is_empty()
}

/// The status a create answer surfaces with: the created record, or a
/// server fault.
pub fn create_user_status(result: &Result<CreateUserResult, RepositoryError>) -> (r: u16)
    ensures
        (result is Ok ==> r == 200),
        (result is Err ==> r == 500),
{
    match result {
        Ok(_) => 200,
        Err(_) => 500,
    }
}

/// The status a lookup answer surfaces with: found, absent, or a server
/// fault.
pub fn get_user_status(result: &Result<Option<User>, RepositoryError>) -> (r: u16)
    ensures
        (result matches Ok(found) && found is Some ==> r == 200),
        (result matches Ok(found) && found is None ==> r == 404),
        (result is Err ==> r == 500),
{
    match result {
        Ok(Some(_)) => 200,
        Ok(None) => 404,
        Err(_) => 500,
    }
}

/// What the update handler does next, given the storage answer.
#[derive(Debug, Clone, Copy, PartialEq, Eq, Structural)]
pub enum UpdateStep {
    /// Exactly one record matched: fetch it again and return it.
    Refetch,
    /// Nothing matched: the id names no record.
    NoMatch,
    /// The update itself failed.
    Failed,
}

/// Decides the update handler's next move: a single matched record is
/// refetched, no match is reported as absent, and a storage failure is a
/// server fault.
pub fn update_user_step(result: &Result<UpdateUserResult, RepositoryError>) -> (r: UpdateStep)
    ensures
        (result matches Ok(update) && update.matched_count == 1 ==> r == UpdateStep::Refetch),
        (result matches Ok(update) && update.matched_count != 1 ==> r == UpdateStep::NoMatch),
        (result is Err ==> r == UpdateStep::Failed),
{
    match result {
        Ok(update) => {
            if update.matched_count == 1 {
                UpdateStep::Refetch
            } else {
                UpdateStep::NoMatch
            }
        },
        Err(_) => UpdateStep::Failed,
    }
}

/// The status a delete answer surfaces with: one record deleted, nothing
/// to delete, or a server fault.
pub fn delete_user_status(result: &Result<DeleteUserResult, RepositoryError>) -> (r: u16)
    ensures
        (result matches Ok(deleted) && deleted.deleted_count == 1 ==> r == 200),
        (result matches Ok(deleted) && deleted.deleted_count != 1 ==> r == 404),
        (result is Err ==> r == 500),
{
    match result {
        Ok(deleted) => {
            if deleted.deleted_count == 1 {
                200
            } else {
                404
            }
        },
        Err(_) => 500,
    }
}

/// The status a list-all answer surfaces with.
pub fn get_all_users_status(result: &Result<Vec<User>, RepositoryError>) -> (r: u16)
    ensures
        (result is Ok ==> r == 200),
        (result is Err ==> r == 500),
{
    match result {
        Ok(_) => 200,
        Err(_) => 500,
    }
}

} // verus!
