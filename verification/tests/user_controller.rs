use user_service::controller::user_controller::{
    create_user, delete_user, get_user, get_users, update_user,
};
use user_service::manager::user_manager::UserManager;
use user_service::model::api_response::{ApiError, ApiResponse};
use user_service::model::user::UserDto;
use user_service::repository::in_memory_repository::InMemoryUserRepository;
use user_service::state::users_api::UsersApi;
use user_service::state::AppState;
use user_service::config::authentication::Keys;

fn app() -> UserManager<InMemoryUserRepository> {
    UsersApi::new(InMemoryUserRepository::new()).user_manager
}

fn user(user_name: &str) -> UserDto {
    UserDto { id: None, user_name: Some(user_name.to_string()) }
}

fn existing_user(id: i32, user_name: &str) -> UserDto {
    UserDto { id: Some(id), user_name: Some(user_name.to_string()) }
}

fn is_success(status: u16) -> bool {
    (200..300).contains(&status)
}

fn is_client_error(status: u16) -> bool {
    (400..500).contains(&status)
}

fn unwrap_ok(res: ApiResponse<UserDto>) -> UserDto {
    res.1.unwrap()
}

fn unwrap_err(res: ApiResponse<UserDto>) -> ApiError {
    res.1.unwrap_err()
}

#[test]
fn user_controller_test_create_user() {
    let mut app = app();
    let user = user("foo");
    let res = create_user(&mut app, &user);

    assert!(is_success(res.0));

    let body = unwrap_ok(res);

    assert!(body.id.is_some());
    assert_eq!(body.user_name.unwrap(), "foo");
}

#[test]
fn test_create_existing_user() {
    let mut app = app();
    let user = existing_user(1, "foo");
    let res = create_user(&mut app, &user);

    assert!(is_client_error(res.0));

    let body = unwrap_err(res);

    assert_eq!(body.code, "CannotCreateExistingUser");
}

#[test]
fn test_get_user() {
    let user = user("foo");
    let mut app = app();
    let res = create_user(&mut app, &user);
    let body = unwrap_ok(res);
    let res = get_user(&app, body.id.unwrap());

    assert!(is_success(res.0));

    let body = unwrap_ok(res);

    assert_eq!(body.user_name.unwrap(), "foo");
}

#[test]
fn test_get_missing_user() {
    let mut app = app();
    let test_user = 23423423;

    delete_user(&mut app, test_user);

    let res = get_user(&app, test_user);

    assert!(is_client_error(res.0));

    let body = unwrap_err(res);

    assert_eq!(body.code, "NotFound");
}

#[test]
fn user_controller_test_get_all_users() {
    let users: Vec<UserDto> = vec!["foo123", "bar123", "baz123"].iter().map(|s| user(s)).collect();
    let mut app = app();

    for user in users {
        create_user(&mut app, &user);
    }

    let res = get_users(&app);

    assert!(is_success(res.0));

    let body = res.1;

    assert!(body.iter().any(|u| u.user_name.as_deref() == Some("foo123")));
    assert!(body.iter().any(|u| u.user_name.as_deref() == Some("bar123")));
    assert!(body.iter().any(|u| u.user_name.as_deref() == Some("baz123")));
}

#[test]
fn user_controller_test_update_user() {
    let mut app = app();
    let user = user("foo");
    let res = create_user(&mut app, &user);

    assert!(is_success(res.0));

    let body = unwrap_ok(res);

    assert!(body.id.is_some());
    assert_eq!(body.user_name.unwrap(), "foo");

    let id = body.id.unwrap();
    let user = existing_user(id, "bar");
    let res = update_user(&mut app, &user);
    let body = unwrap_ok(res);

    assert_eq!(body.id, Some(id));
    assert_eq!(body.user_name.unwrap(), "bar");
}

#[test]
fn test_update_missing_user() {
    let mut app = app();
    let user = user("foo");
    let res = update_user(&mut app, &user);

    assert!(is_client_error(res.0));

    let body = unwrap_err(res);

    assert_eq!(body.code, "MissingId");
}

#[test]
fn user_controller_test_delete_user() {
    let mut app = app();
    let user = user("foo");
    let res = create_user(&mut app, &user);
    let body = unwrap_ok(res);

    assert!(body.id.is_some());

    let id = body.id.unwrap();
    let res = delete_user(&mut app, id);

    assert!(is_success(res.0));
}

#[test]
fn user_controller_test_delete_missing_user() {
    let mut app = app();
    let test_user = 23423423;

    delete_user(&mut app, test_user);

    let res = delete_user(&mut app, test_user);

    assert!(is_client_error(res.0));
}

#[test]
fn create_answers_created_with_the_stored_user() {
    let mut app = app();

    assert_eq!(create_user(&mut app, &user("foo")), (201, Ok(existing_user(1, "foo"))));
    assert_eq!(create_user(&mut app, &user("bar")), (201, Ok(existing_user(2, "bar"))));
}

#[test]
fn create_with_an_id_answers_conflict() {
    let mut app = app();

    assert_eq!(
        create_user(&mut app, &existing_user(1, "foo")),
        (
            409,
            Err(ApiError {
                code: "CannotCreateExistingUser".to_string(),
                message: "Cannot create a user that already has an id".to_string(),
            })
        )
    );
    assert_eq!(get_users(&app), (200, Vec::new()));
}

#[test]
fn create_without_a_name_answers_a_failed_request() {
    let mut app = app();

    assert_eq!(
        create_user(&mut app, &UserDto { id: None, user_name: None }),
        (
            500,
            Err(ApiError {
                code: "FailedRequest".to_string(),
                message: "Failed to create user".to_string(),
            })
        )
    );
}

#[test]
fn update_answers_ok_with_the_changed_user() {
    let mut app = app();
    let _ = create_user(&mut app, &user("foo"));

    assert_eq!(update_user(&mut app, &existing_user(1, "bar")), (200, Ok(existing_user(1, "bar"))));
    assert_eq!(get_user(&app, 1), (200, Ok(existing_user(1, "bar"))));
}

#[test]
fn update_without_an_id_answers_bad_request() {
    let mut app = app();

    assert_eq!(
        update_user(&mut app, &user("foo")),
        (400, Err(ApiError { code: "MissingId".to_string(), message: "Missing id".to_string() }))
    );
}

#[test]
fn update_of_a_missing_user_answers_a_failed_request() {
    let mut app = app();

    assert_eq!(
        update_user(&mut app, &existing_user(3, "foo")),
        (
            500,
            Err(ApiError {
                code: "FailedRequest".to_string(),
                message: "Failed to update user".to_string(),
            })
        )
    );
}

#[test]
fn get_of_a_missing_user_answers_not_found() {
    let app = app();

    assert_eq!(
        get_user(&app, 1),
        (
            404,
            Err(ApiError { code: "NotFound".to_string(), message: "User not found".to_string() })
        )
    );
}

#[test]
fn get_users_always_answers_ok() {
    let mut app = app();

    assert_eq!(get_users(&app), (200, Vec::new()));

    let _ = create_user(&mut app, &user("foo"));
    let _ = create_user(&mut app, &user("bar"));

    assert_eq!(get_users(&app), (200, vec![existing_user(1, "foo"), existing_user(2, "bar")]));
}

#[test]
fn delete_answers_ok_once_and_not_found_after() {
    let mut app = app();
    let _ = create_user(&mut app, &user("foo"));

    assert_eq!(delete_user(&mut app, 1), (200, ()));
    assert_eq!(delete_user(&mut app, 1), (404, ()));
    assert_eq!(get_users(&app), (200, Vec::new()));
}

#[test]
fn the_state_holds_the_resource_and_the_token_service() {
    let mut state = AppState::new(InMemoryUserRepository::new(), Keys::new(b"secret".to_vec()));
    let created = create_user(&mut state.users_api.user_manager, &user("foo"));

    assert_eq!(created, (201, Ok(existing_user(1, "foo"))));
    assert_eq!(state.auth_service.generate_tokens("foo").unwrap().token_type, "Bearer");
}
