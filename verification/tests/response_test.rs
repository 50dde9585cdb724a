use blog_api::ApiError;
use blog_api::ApiResponseBuilder;
use blog_api::ErrorResponse;
use blog_api::ServiceError;
use blog_api::dto_post::make_excerpt;

#[test]
fn test_one_wraps_data_without_meta() {
    let r = ApiResponseBuilder::one(42u32);
    assert_eq!(r.data, 42);
    assert!(r.meta.is_none());
}

#[test]
fn test_list_wraps_items() {
    let r = ApiResponseBuilder::list(vec![1u32, 2, 3]);
    assert_eq!(r.data, vec![1, 2, 3]);
    assert!(r.meta.is_none());
}

#[test]
fn test_paginated_carries_meta() {
    let r = ApiResponseBuilder::paginated(vec!["a".to_owned()], 21, 2, 10);
    let meta = r.meta.expect("a paginated response carries metadata");
    assert_eq!(meta.total, 21);
    assert_eq!(meta.page, 2);
    assert_eq!(meta.per_page, 10);
    assert_eq!(meta.total_pages, 3);
}

#[test]
fn test_created_and_no_content_statuses() {
    let (status, r) = ApiResponseBuilder::created("made".to_owned());
    assert_eq!(status, 201);
    assert_eq!(r.data, "made");
    assert_eq!(ApiResponseBuilder::no_content(), 204);
}

#[test]
fn test_error_statuses_and_bodies() {
    let cases: Vec<(ApiError, u16, &str, Option<&str>)> = vec![
        (ApiError::not_found(), 404, "Resource not found", None),
        (ApiError::bad_request("bad body".to_owned()), 400, "Bad request", Some("bad body")),
        (ApiError::ValidationError("oops".to_owned()), 422, "Validation error", Some("oops")),
        (ApiError::Conflict("taken".to_owned()), 409, "Conflict", Some("taken")),
        (ApiError::internal("secret".to_owned()), 500, "Internal server error", None),
        (ApiError::DatabaseError("secret".to_owned()), 500, "Database error", None),
    ];
    for (err, want_status, want_error, want_details) in cases {
        let (status, body): (u16, ErrorResponse) = err.response_parts();
        assert_eq!(status, want_status);
        assert_eq!(body.error, want_error);
        assert_eq!(body.details, want_details.map(|d| d.to_owned()));
    }
}

#[test]
fn test_service_errors_map_totally() {
    let (status, body) = ApiError::from_service(ServiceError::NotFound).response_parts();
    assert_eq!(status, 404);
    assert_eq!(body.details, None);
    let (status, body) =
        ApiError::from_service(ServiceError::AlreadyExists("Email already exists".to_owned()))
            .response_parts();
    assert_eq!(status, 409);
    assert_eq!(body.error, "Conflict");
    assert_eq!(body.details, Some("Email already exists".to_owned()));
    let (status, body) =
        ApiError::from_service(ServiceError::Database("connection lost".to_owned()))
            .response_parts();
    assert_eq!(status, 500);
    assert_eq!(body.error, "Database error");
    assert_eq!(body.details, None);
}

#[test]
fn test_excerpt_long_content_is_cut_with_marker() {
    let mut content = String::new();
    for i in 0..150u32 {
        content.push(char::from_digit(i % 10, 10).unwrap());
    }
    let excerpt = make_excerpt(&content);
    assert_eq!(excerpt.chars().count(), 103);
    let head: String = excerpt.chars().take(100).collect();
    let want: String = content.chars().take(100).collect();
    assert_eq!(head, want);
    assert!(excerpt.ends_with("..."));
}

#[test]
fn test_excerpt_short_content_is_verbatim() {
    let content = "Contenu court".to_owned();
    let excerpt = make_excerpt(&content);
    assert_eq!(excerpt, "Contenu court");
    assert!(!excerpt.ends_with("..."));
}

#[test]
fn test_excerpt_boundary_at_one_hundred() {
    let mut content = String::new();
    for _ in 0..100 {
        content.push('x');
    }
    let excerpt = make_excerpt(&content);
    assert_eq!(excerpt.chars().count(), 100);
    assert_eq!(excerpt, content);
}
