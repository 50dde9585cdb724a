use blog_api::CreatePostDto;
use blog_api::CreatePostMetadataDto;
use blog_api::CreatePostSettingsDto;
use blog_api::CreateSeoMetadataDto;
use blog_api::CreateTagDto;
use blog_api::CreateUserDto;
use blog_api::UpdatePostDto;
use blog_api::UpdateUserDto;
use blog_api::ValidationError;
use blog_api::JsonValue;
use blog_api::validation::validate_create_post;
use blog_api::validation::validate_create_user;
use blog_api::validation::validate_update_post;
use blog_api::validation::validate_update_user;

fn valid_post_body() -> CreatePostDto {
    CreatePostDto {
        title: "Titre valide".to_owned(),
        content: "Contenu valide avec plus de 10 caractères".to_owned(),
        author_id: 1,
        metadata: None,
        published: false,
    }
}

#[test]
fn test_valid_user_passes() {
    let dto = CreateUserDto { username: "johndoe".to_owned(), email: "john@example.com".to_owned() };
    let v = validate_create_user(dto).expect("a valid body passes");
    assert_eq!(v.0.username, "johndoe");
}

#[test]
fn test_username_too_short_rejected() {
    let dto = CreateUserDto { username: "ab".to_owned(), email: "valid@example.com".to_owned() };
    match validate_create_user(dto) {
        Err(ValidationError::ValidationFailed(groups)) => {
            assert_eq!(groups.len(), 1);
            assert_eq!(groups[0].field, "username");
            assert_eq!(groups[0].messages, vec![
                "Username must be between 3 and 50 characters".to_owned()
            ]);
        },
        _ => panic!("a two-character username must be rejected"),
    }
}

#[test]
fn test_invalid_email_rejected() {
    let dto = CreateUserDto { username: "validuser".to_owned(), email: "not-an-email".to_owned() };
    match validate_create_user(dto) {
        Err(ValidationError::ValidationFailed(groups)) => {
            assert_eq!(groups.len(), 1);
            assert_eq!(groups[0].field, "email");
            assert_eq!(groups[0].messages, vec!["Invalid email format".to_owned()]);
        },
        _ => panic!("a malformed email must be rejected"),
    }
}

#[test]
fn test_overlong_email_violations_are_grouped() {
    let mut local = String::new();
    for _ in 0..60 {
        local.push('a');
    }
    let mut label = String::new();
    for _ in 0..250 {
        label.push('b');
    }
    let email = format!("{}@{}.com", local, label);
    let dto = CreateUserDto { username: "validuser".to_owned(), email };
    match validate_create_user(dto) {
        Err(ValidationError::ValidationFailed(groups)) => {
            assert_eq!(groups.len(), 1);
            assert_eq!(groups[0].field, "email");
            assert_eq!(groups[0].messages.len(), 2);
            assert_eq!(groups[0].messages[0], "Invalid email format");
            assert_eq!(groups[0].messages[1], "Email must not exceed 255 characters");
        },
        _ => panic!("an overlong email must be rejected"),
    }
}

#[test]
fn test_update_user_absent_fields_pass() {
    let dto = UpdateUserDto { username: None, email: None };
    assert!(validate_update_user(dto).is_ok());
}

#[test]
fn test_update_user_bad_email_rejected() {
    let dto = UpdateUserDto { username: None, email: Some("nope".to_owned()) };
    assert!(validate_update_user(dto).is_err());
}

#[test]
fn test_valid_post_passes() {
    assert!(validate_create_post(valid_post_body()).is_ok());
}

#[test]
fn test_title_too_short_rejected() {
    let mut dto = valid_post_body();
    dto.title = "ab".to_owned();
    match validate_create_post(dto) {
        Err(e) => {
            assert_eq!(e.status_code(), 422);
            match e {
                ValidationError::ValidationFailed(groups) => {
                    assert_eq!(groups[0].field, "title");
                    assert_eq!(groups[0].messages[0], "Le titre doit faire entre 3 et 255 caractères");
                },
                _ => panic!("rule breach expected"),
            }
        },
        Ok(_) => panic!("a two-character title must be rejected"),
    }
}

#[test]
fn test_content_too_short_rejected() {
    let mut dto = valid_post_body();
    dto.content = "Court".to_owned();
    match validate_create_post(dto) {
        Err(ValidationError::ValidationFailed(groups)) => {
            assert_eq!(groups[0].field, "content");
            assert_eq!(groups[0].messages[0], "Le contenu doit faire au moins 10 caractères");
        },
        _ => panic!("a short content must be rejected"),
    }
}

#[test]
fn test_author_id_zero_rejected() {
    let mut dto = valid_post_body();
    dto.author_id = 0;
    match validate_create_post(dto) {
        Err(ValidationError::ValidationFailed(groups)) => {
            assert_eq!(groups[0].field, "author_id");
            assert_eq!(groups[0].messages[0], "L'ID auteur doit être positif");
        },
        _ => panic!("a non-positive author reference must be rejected"),
    }
}

#[test]
fn test_nested_tag_name_too_long_rejected() {
    let mut name = String::new();
    for _ in 0..60 {
        name.push('x');
    }
    let mut dto = valid_post_body();
    dto.metadata = Some(CreatePostMetadataDto {
        tags: Some(vec![CreateTagDto { name, color: None }]),
        seo: None,
        settings: None,
    });
    match validate_create_post(dto) {
        Err(e) => {
            assert_eq!(e.status_code(), 422);
            match e {
                ValidationError::ValidationFailed(groups) => {
                    assert_eq!(groups.len(), 1);
                    assert_eq!(groups[0].field, "metadata.tags[0].name");
                    assert_eq!(groups[0].messages[0], "Le nom du tag doit faire entre 1 et 50 caractères");
                },
                _ => panic!("rule breach expected"),
            }
        },
        Ok(_) => panic!("a sixty-character tag name must be rejected"),
    }
}

#[test]
fn test_second_tag_color_too_long_rejected() {
    let mut dto = valid_post_body();
    dto.metadata = Some(CreatePostMetadataDto {
        tags: Some(vec![
            CreateTagDto { name: "ok".to_owned(), color: None },
            CreateTagDto { name: "deux".to_owned(), color: Some("#AABBCCDD".to_owned()) },
        ]),
        seo: None,
        settings: None,
    });
    match validate_create_post(dto) {
        Err(ValidationError::ValidationFailed(groups)) => {
            assert_eq!(groups[0].field, "metadata.tags[1].color");
        },
        _ => panic!("an overlong colour must be rejected"),
    }
}

#[test]
fn test_too_many_tags_rejected() {
    let mut tags: Vec<CreateTagDto> = Vec::new();
    for _ in 0..11 {
        tags.push(CreateTagDto { name: "t".to_owned(), color: None });
    }
    let mut dto = valid_post_body();
    dto.metadata = Some(CreatePostMetadataDto { tags: Some(tags), seo: None, settings: None });
    match validate_create_post(dto) {
        Err(ValidationError::ValidationFailed(groups)) => {
            assert_eq!(groups[0].field, "metadata.tags");
            assert_eq!(groups[0].messages[0], "Maximum 10 tags autorisés");
        },
        _ => panic!("an eleventh tag must be rejected"),
    }
}

#[test]
fn test_seo_rules_rejected() {
    let mut title = String::new();
    for _ in 0..71 {
        title.push('t');
    }
    let mut dto = valid_post_body();
    dto.metadata = Some(CreatePostMetadataDto {
        tags: None,
        seo: Some(CreateSeoMetadataDto {
            meta_title: Some(title),
            meta_description: None,
            keywords: None,
        }),
        settings: None,
    });
    match validate_create_post(dto) {
        Err(ValidationError::ValidationFailed(groups)) => {
            assert_eq!(groups[0].field, "metadata.seo.meta_title");
        },
        _ => panic!("an overlong meta title must be rejected"),
    }
}

#[test]
fn test_reading_time_out_of_range_rejected() {
    let mut dto = valid_post_body();
    dto.metadata = Some(CreatePostMetadataDto {
        tags: None,
        seo: None,
        settings: Some(CreatePostSettingsDto {
            allow_comments: true,
            featured: false,
            reading_time_minutes: Some(61),
        }),
    });
    match validate_create_post(dto) {
        Err(ValidationError::ValidationFailed(groups)) => {
            assert_eq!(groups[0].field, "metadata.settings.reading_time_minutes");
            assert_eq!(groups[0].messages[0], "Le temps de lecture doit être entre 1 et 60 minutes");
        },
        _ => panic!("a reading time over an hour must be rejected"),
    }
}

#[test]
fn test_update_post_absent_fields_pass() {
    let dto = UpdatePostDto { title: None, content: None, metadata: None, published: None };
    assert!(validate_update_post(dto).is_ok());
}

#[test]
fn test_update_post_present_fields_checked() {
    let dto = UpdatePostDto {
        title: Some("ab".to_owned()),
        content: Some("Court".to_owned()),
        metadata: None,
        published: Some(true),
    };
    match validate_update_post(dto) {
        Err(ValidationError::ValidationFailed(groups)) => {
            assert_eq!(groups.len(), 2);
            assert_eq!(groups[0].field, "title");
            assert_eq!(groups[1].field, "content");
        },
        _ => panic!("present fields obey the creation rules"),
    }
}

#[test]
fn test_malformed_body_answers_bad_request() {
    let e = ValidationError::JsonError("expected value at line 1".to_owned());
    assert_eq!(e.status_code(), 400);
    match e.body() {
        JsonValue::Obj(pairs) => {
            assert_eq!(pairs[0].0, "error");
            match &pairs[0].1 {
                JsonValue::Str(s) => assert_eq!(s, "Validation failed"),
                _ => panic!("the error label is a string"),
            }
            assert_eq!(pairs[1].0, "violations");
            match &pairs[1].1 {
                JsonValue::Arr(items) => {
                    assert_eq!(items.len(), 1);
                    match &items[0] {
                        JsonValue::Obj(vp) => {
                            assert_eq!(vp[0].0, "field");
                            match &vp[0].1 {
                                JsonValue::Str(s) => assert_eq!(s, "_json"),
                                _ => panic!("the pseudo-field is a string"),
                            }
                        },
                        _ => panic!("each violation is an object"),
                    }
                },
                _ => panic!("the violations are an array"),
            }
        },
        _ => panic!("the body is an object"),
    }
}

#[test]
fn test_validation_body_groups_by_field() {
    let dto = CreateUserDto { username: "ab".to_owned(), email: "bad".to_owned() };
    match validate_create_user(dto) {
        Err(e) => {
            assert_eq!(e.status_code(), 422);
            match &e {
                ValidationError::ValidationFailed(groups) => {
                    assert_eq!(groups.len(), 2);
                    assert_eq!(groups[0].field, "username");
                    assert_eq!(groups[1].field, "email");
                },
                _ => panic!("rule breach expected"),
            }
            match e.body() {
                JsonValue::Obj(pairs) => {
                    match &pairs[1].1 {
                        JsonValue::Arr(items) => assert_eq!(items.len(), 2),
                        _ => panic!("the violations are an array"),
                    }
                },
                _ => panic!("the body is an object"),
            }
        },
        Ok(_) => panic!("both fields break their rules"),
    }
}
