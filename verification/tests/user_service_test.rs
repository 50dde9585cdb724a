use blog_api::ApiError;
use blog_api::CreateUserDto;
use blog_api::PaginationQuery;
use blog_api::ServiceError;
use blog_api::UpdateUserDto;
use blog_api::UserService;
use blog_api::UserStore;

fn service() -> UserService {
    UserService::new(UserStore::new())
}

fn user_dto(username: &str, email: &str) -> CreateUserDto {
    CreateUserDto { username: username.to_owned(), email: email.to_owned() }
}

#[test]
fn test_create_user_assigns_ids_in_order() {
    let mut svc = service();
    let a = svc.create_at(user_dto("user1", "user1@example.com"), 100).unwrap();
    let b = svc.create_at(user_dto("user2", "user2@example.com"), 200).unwrap();
    assert_eq!(a.id, 1);
    assert_eq!(a.username, "user1");
    assert_eq!(a.email, "user1@example.com");
    assert_eq!(a.created_at, 100);
    assert_eq!(b.id, 2);
}

#[test]
fn test_create_user_duplicate_email_conflicts() {
    let mut svc = service();
    svc.create_at(user_dto("user1", "same@example.com"), 100).unwrap();
    match svc.create_at(user_dto("user2", "same@example.com"), 200) {
        Err(e) => {
            let (status, body) = ApiError::from_service(e).response_parts();
            assert_eq!(status, 409);
            assert_eq!(body.error, "Conflict");
            assert_eq!(body.details, Some("Email already exists".to_owned()));
        },
        Ok(_) => panic!("the second user reuses the email and must be refused"),
    }
    let q = PaginationQuery::default();
    assert_eq!(svc.find_all(&q).unwrap().total, 1);
}

#[test]
fn test_find_user_by_id() {
    let mut svc = service();
    let created = svc.create_at(user_dto("johndoe", "john@example.com"), 100).unwrap();
    let found = svc.find_by_id(created.id).unwrap();
    assert_eq!(found.username, "johndoe");
    assert_eq!(found.email, "john@example.com");
}

#[test]
fn test_find_user_not_found() {
    let svc = service();
    match svc.find_by_id(999) {
        Err(ServiceError::NotFound) => {
            let (status, body) = ApiError::from_service(ServiceError::NotFound).response_parts();
            assert_eq!(status, 404);
            assert_eq!(body.error, "Resource not found");
            assert_eq!(body.details, None);
        },
        _ => panic!("an empty store has no user 999"),
    }
}

#[test]
fn test_list_users_with_pagination() {
    let mut svc = service();
    for i in 0..5u32 {
        let name = format!("user{}", i);
        let email = format!("user{}@example.com", i);
        svc.create_at(user_dto(&name, &email), 100 + i as i64).unwrap();
    }
    let q = PaginationQuery { page: 1, per_page: 2 };
    let page1 = svc.find_all(&q).unwrap();
    assert_eq!(page1.total, 5);
    assert_eq!(page1.users.len(), 2);
    assert_eq!(page1.users[0].username, "user0");
    assert_eq!(page1.users[1].username, "user1");
    let q3 = PaginationQuery { page: 3, per_page: 2 };
    let page3 = svc.find_all(&q3).unwrap();
    assert_eq!(page3.users.len(), 1);
    assert_eq!(page3.users[0].username, "user4");
}

#[test]
fn test_update_user_username_only() {
    let mut svc = service();
    let created = svc.create_at(user_dto("original", "update@example.com"), 100).unwrap();
    let updated = svc
        .update(created.id, UpdateUserDto { username: Some("updated".to_owned()), email: None })
        .unwrap();
    assert_eq!(updated.username, "updated");
    assert_eq!(updated.email, "update@example.com");
    assert_eq!(updated.created_at, 100);
    assert_eq!(updated.id, created.id);
}

#[test]
fn test_update_user_not_found() {
    let mut svc = service();
    let r = svc.update(999, UpdateUserDto { username: Some("updated".to_owned()), email: None });
    assert!(matches!(r, Err(ServiceError::NotFound)));
}

#[test]
fn test_update_user_duplicate_email_conflicts() {
    let mut svc = service();
    svc.create_at(user_dto("user1", "user1@example.com"), 100).unwrap();
    let second = svc.create_at(user_dto("user2", "user2@example.com"), 200).unwrap();
    let r = svc.update(
        second.id,
        UpdateUserDto { username: None, email: Some("user1@example.com".to_owned()) },
    );
    match r {
        Err(ServiceError::AlreadyExists(d)) => assert_eq!(d, "Email already exists"),
        _ => panic!("taking another row's email must be refused"),
    }
    assert_eq!(svc.find_by_id(second.id).unwrap().email, "user2@example.com");
}

#[test]
fn test_update_user_same_email_passes() {
    let mut svc = service();
    let created = svc.create_at(user_dto("user1", "keep@example.com"), 100).unwrap();
    let updated = svc
        .update(
            created.id,
            UpdateUserDto {
                username: Some("renamed".to_owned()),
                email: Some("keep@example.com".to_owned()),
            },
        )
        .unwrap();
    assert_eq!(updated.username, "renamed");
    assert_eq!(updated.email, "keep@example.com");
}

#[test]
fn test_delete_user() {
    let mut svc = service();
    let created = svc.create_at(user_dto("todelete", "delete@example.com"), 100).unwrap();
    assert!(svc.delete(created.id).is_ok());
    assert!(matches!(svc.find_by_id(created.id), Err(ServiceError::NotFound)));
}

#[test]
fn test_delete_user_not_found() {
    let mut svc = service();
    assert!(matches!(svc.delete(999), Err(ServiceError::NotFound)));
}
