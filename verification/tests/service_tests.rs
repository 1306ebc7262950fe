use user_directory::errors::StatusCode;
use user_directory::internal::InternalRepository;
use user_directory::service::UserServiceCore;
use uuid::Uuid;

fn fresh_service() -> UserServiceCore<InternalRepository> {
    UserServiceCore::new(InternalRepository::new())
}

#[test]
fn test_put_user_data_success() {
    let mut service = fresh_service();

    let user_id = Uuid::now_v7();
    let response = service
        .put_user_data(
            &user_id.to_string(),
            "New User".to_string(),
            "new@example.com".to_string(),
        )
        .unwrap();

    assert_eq!(response.message, format!("User {} added successfully", user_id));

    let added_user = service.get_user_data_by_id(&user_id.to_string()).unwrap();
    assert_eq!(added_user.user_name, "New User");
    assert_eq!(added_user.user_email, "new@example.com");
}

#[test]
fn test_put_user_data_invalid_uuid() {
    let mut service = fresh_service();

    let invalid_uuid = "invalid-uuid";
    let response = service.put_user_data(
        invalid_uuid,
        "New User".to_string(),
        "new@example.com".to_string(),
    );
    assert!(response.is_err());
    let error = response.unwrap_err();
    assert_eq!(error.code(), StatusCode::InvalidArgument);
    assert_eq!(error.message(), "Invalid UUID");
}

#[test]
fn test_put_user_data_duplicate_uuid() {
    let mut service = fresh_service();

    let user_id = Uuid::now_v7();
    service
        .put_user_data(
            &user_id.to_string(),
            "New User".to_string(),
            "new@example.com".to_string(),
        )
        .unwrap();

    let response = service.put_user_data(
        &user_id.to_string(),
        "New User".to_string(),
        "new@example.com".to_string(),
    );
    assert!(response.is_err());
    let error = response.unwrap_err();
    assert_eq!(error.code(), StatusCode::AlreadyExists);
    assert_eq!(error.message(), "User with this UUID already exists");
}

#[test]
fn test_get_user_data_success() {
    let mut service = fresh_service();
    let user_id = Uuid::now_v7();
    service
        .put_user_data(
            &user_id.to_string(),
            "Test User".to_string(),
            "test@example.com".to_string(),
        )
        .unwrap();

    let response = service.get_user_data(&user_id.to_string()).unwrap();
    assert_eq!(response.user_name, "Test User");
    assert_eq!(response.user_email, "test@example.com");
}

#[test]
fn test_update_user_data_success() {
    let mut service = fresh_service();
    let user_id = Uuid::now_v7();
    service
        .put_user_data(
            &user_id.to_string(),
            "Existing User".to_string(),
            "existing@example.com".to_string(),
        )
        .unwrap();

    let response = service
        .update_user_data(
            &user_id.to_string(),
            "Updated User".to_string(),
            "updated@example.com".to_string(),
        )
        .unwrap();

    assert_eq!(response.message, format!("User {} updated successfully", user_id));

    let updated_user = service.get_user_data_by_id(&user_id.to_string()).unwrap();
    assert_eq!(updated_user.user_name, "Updated User");
    assert_eq!(updated_user.user_email, "updated@example.com");
}

#[test]
fn create_user_success() {
    let mut service = fresh_service();

    let user_id = Uuid::now_v7();
    let response = service.create_user(
        &user_id.to_string(),
        "New User".to_string(),
        "new@example.com".to_string(),
    );
    assert!(response.is_ok(), "Expected Ok response");

    let added_user = service.get_user_data_by_id(&user_id.to_string()).unwrap();
    assert_eq!(added_user.user_name, "New User");
    assert_eq!(added_user.user_email, "new@example.com");
}

#[test]
fn create_user_invalid_uuid() {
    let mut service = fresh_service();

    let invalid_uuid = "invalid-uuid";
    let response = service.create_user(
        invalid_uuid,
        "New User".to_string(),
        "new@example.com".to_string(),
    );
    assert!(response.is_err());
    let error = response.unwrap_err();
    assert_eq!(error.code(), StatusCode::InvalidArgument);
    assert_eq!(error.message(), "Invalid UUID");
}

#[test]
fn create_user_duplicate_uuid() {
    let mut service = fresh_service();

    let user_id = Uuid::now_v7();
    service
        .create_user(
            &user_id.to_string(),
            "New User".to_string(),
            "new@example.com".to_string(),
        )
        .unwrap();

    let response = service.create_user(
        &user_id.to_string(),
        "New User".to_string(),
        "new@example.com".to_string(),
    );
    assert!(response.is_err());
    let error = response.unwrap_err();
    assert_eq!(error.code(), StatusCode::AlreadyExists);
    assert_eq!(error.message(), "User with this UUID already exists");
}

#[test]
fn tests_get_user_data_success() {
    let mut service = fresh_service();
    let user_id = Uuid::now_v7();
    service
        .create_user(
            &user_id.to_string(),
            "Test User".to_string(),
            "test@example.com".to_string(),
        )
        .unwrap();

    let response = service.get_user_data_by_id(&user_id.to_string()).unwrap();
    assert_eq!(response.user_name, "Test User");
    assert_eq!(response.user_email, "test@example.com");
}

#[test]
fn tests_update_user_data_success() {
    let mut service = fresh_service();
    let user_id = Uuid::now_v7();
    service
        .create_user(
            &user_id.to_string(),
            "Existing User".to_string(),
            "existing@example.com".to_string(),
        )
        .unwrap();

    let response = service
        .update_user_data(
            &user_id.to_string(),
            "Updated User".to_string(),
            "updated@example.com".to_string(),
        )
        .unwrap();

    assert_eq!(response.message, format!("User {} updated successfully", user_id));

    let updated_user = service.get_user_data_by_id(&user_id.to_string()).unwrap();
    assert_eq!(updated_user.user_name, "Updated User");
    assert_eq!(updated_user.user_email, "updated@example.com");
}

#[test]
fn update_user_data_invalid_uuid() {
    let mut service = fresh_service();

    let response = service.update_user_data(
        "invalid-uuid",
        "Updated User".to_string(),
        "updated@example.com".to_string(),
    );
    assert!(response.is_err(), "Expected error response");
    let status = response.unwrap_err();
    assert_eq!(status.code(), StatusCode::InvalidArgument);
    assert_eq!(status.message(), "Invalid UUID");
}

#[test]
fn update_user_data_not_found() {
    let mut service = fresh_service();

    let user_id = Uuid::now_v7();
    let response = service.update_user_data(
        &user_id.to_string(),
        "Updated User".to_string(),
        "updated@example.com".to_string(),
    );
    assert!(response.is_err(), "Expected error response");
    let status = response.unwrap_err();
    assert_eq!(status.code(), StatusCode::NotFound);
    assert_eq!(status.message(), "User not found");
}

#[test]
fn put_user_data_success() {
    let mut service = fresh_service();

    let user_id = Uuid::now_v7();
    let response = service
        .put_user_data(
            &user_id.to_string(),
            "New User".to_string(),
            "new@example.com".to_string(),
        )
        .unwrap();

    assert_eq!(response.message, format!("User {} added successfully", user_id));
}

#[test]
fn put_user_data_invalid_uuid() {
    let mut service = fresh_service();

    let response = service.put_user_data(
        "invalid-uuid",
        "New User".to_string(),
        "new@example.com".to_string(),
    );
    assert!(response.is_err());
    let error = response.unwrap_err();
    assert_eq!(error.code(), StatusCode::InvalidArgument);
    assert_eq!(error.message(), "Invalid UUID");
}

#[test]
fn put_user_data_duplicate_uuid() {
    let mut service = fresh_service();

    let user_id = Uuid::now_v7();
    service
        .put_user_data(
            &user_id.to_string(),
            "New User".to_string(),
            "new@example.com".to_string(),
        )
        .unwrap();

    let response = service.put_user_data(
        &user_id.to_string(),
        "New User".to_string(),
        "new@example.com".to_string(),
    );
    assert!(response.is_err());
    let error = response.unwrap_err();
    assert_eq!(error.code(), StatusCode::AlreadyExists);
    assert_eq!(error.message(), "User with this UUID already exists");
}

#[test]
fn get_user_id_by_nickname() {
    let mut service = fresh_service();

    let user_id = Uuid::now_v7();
    service
        .put_user_data(
            &user_id.to_string(),
            "test_user".to_string(),
            "test_user@example.com".to_string(),
        )
        .unwrap();

    let response = service.get_user_id_by_nickname("test_user");
    assert!(response.is_ok(), "Expected OK response");
    let user_uuid = response.unwrap().user_uuid;
    assert_eq!(user_uuid, user_id.to_string(), "User UUID does not match");

    let empty_response = service.get_user_id_by_nickname("");
    assert!(empty_response.is_err(), "Expected error response");
    let status = empty_response.err().unwrap();
    assert_eq!(
        status.code(),
        StatusCode::InvalidArgument,
        "Expected InvalidArgument status"
    );
}

#[test]
fn put_user_data_empty_name() {
    let mut service = fresh_service();

    let user_id = Uuid::now_v7();
    let response = service.put_user_data(
        &user_id.to_string(),
        String::new(),
        "new@example.com".to_string(),
    );
    assert!(response.is_err());
    let error = response.unwrap_err();
    assert_eq!(error.code(), StatusCode::InvalidArgument);
    assert_eq!(error.message(), "User name cannot be empty");

    let read = service.get_user_data_by_id(&user_id.to_string());
    assert_eq!(read.unwrap_err().code(), StatusCode::NotFound);
}

#[test]
fn put_user_data_invalid_email() {
    let mut service = fresh_service();

    let user_id = Uuid::now_v7();
    let response = service.put_user_data(
        &user_id.to_string(),
        "New User".to_string(),
        "not-an-email".to_string(),
    );
    assert!(response.is_err());
    let error = response.unwrap_err();
    assert_eq!(error.code(), StatusCode::InvalidArgument);
    assert_eq!(error.message(), "Invalid email format");

    let response = service.put_user_data(
        &user_id.to_string(),
        "New User".to_string(),
        String::new(),
    );
    let error = response.unwrap_err();
    assert_eq!(error.code(), StatusCode::InvalidArgument);
    assert_eq!(error.message(), "User email cannot be empty");
}
