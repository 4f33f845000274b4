//! The status decisions the CRUD handlers make on each storage answer.

use auth_gate::error::RepositoryError;
use auth_gate::responses::CreateUserResult;
use auth_gate::responses::DeleteUserResult;
use auth_gate::responses::UpdateStep;
use auth_gate::responses::UpdateUserResult;
use auth_gate::responses::User;
use auth_gate::responses::create_user_status;
use auth_gate::responses::delete_user_status;
use auth_gate::responses::get_all_users_status;
use auth_gate::responses::get_user_status;
use auth_gate::responses::update_user_step;
use auth_gate::responses::user_id_acceptable;

fn user() -> User {
    User {
        id: None,
        name: "test".to_string(),
        location: "test".to_string(),
        title: "test".to_string(),
    }
}

#[test]
fn empty_id_is_rejected_before_storage() {
    assert!(!user_id_acceptable(&"".to_string()));
    assert!(user_id_acceptable(&"65f0bbf848c60e78920bfd4c".to_string()));
}

#[test]
fn create_statuses() {
    assert_eq!(create_user_status(&Ok(CreateUserResult { id: "test".to_string() })), 200);
    assert_eq!(
        create_user_status(&Err(RepositoryError::GeneralError("test error".to_string()))),
        500,
    );
}

#[test]
fn lookup_statuses() {
    assert_eq!(get_user_status(&Ok(Some(user()))), 200);
    assert_eq!(get_user_status(&Ok(None)), 404);
    assert_eq!(get_user_status(&Err(RepositoryError::GeneralError("x".to_string()))), 500);
}

#[test]
fn update_refetches_only_a_matched_record() {
    let matched = UpdateUserResult {
        matched_count: 1,
        modified_count: 1,
        upserted_id: "".to_string(),
    };
    assert_eq!(update_user_step(&Ok(matched)), UpdateStep::Refetch);
    let unmatched = UpdateUserResult {
        matched_count: 0,
        modified_count: 0,
        upserted_id: "".to_string(),
    };
    assert_eq!(update_user_step(&Ok(unmatched)), UpdateStep::NoMatch);
    assert_eq!(
        update_user_step(&Err(RepositoryError::CreateUpdateUser("x".to_string()))),
        UpdateStep::Failed,
    );
}

#[test]
fn delete_statuses() {
    assert_eq!(delete_user_status(&Ok(DeleteUserResult { deleted_count: 1 })), 200);
    assert_eq!(delete_user_status(&Ok(DeleteUserResult { deleted_count: 0 })), 404);
    assert_eq!(
        delete_user_status(&Err(RepositoryError::DeleteUser("x".to_string()))),
        500,
    );
}

#[test]
fn list_statuses() {
    assert_eq!(get_all_users_status(&Ok(vec![user()])), 200);
    assert_eq!(
        get_all_users_status(&Err(RepositoryError::GeneralError("x".to_string()))),
        500,
    );
}
