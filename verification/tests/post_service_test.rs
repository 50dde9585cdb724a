use blog_api::CreatePostDto;
use blog_api::CreatePostMetadataDto;
use blog_api::CreatePostSettingsDto;
use blog_api::CreateSeoMetadataDto;
use blog_api::CreateTagDto;
use blog_api::CreateUserDto;
use blog_api::PaginationQuery;
use blog_api::PostListItemResponse;
use blog_api::PostResponse;
use blog_api::PostService;
use blog_api::PostStore;
use blog_api::ServiceError;
use blog_api::UpdatePostDto;
use blog_api::UserService;
use blog_api::UserStore;

fn services_with_author(username: &str, email: &str) -> (UserService, PostService, i32) {
    let mut users = UserService::new(UserStore::new());
    let author = users
        .create_at(
            CreateUserDto { username: username.to_owned(), email: email.to_owned() },
            50,
        )
        .unwrap();
    (users, PostService::new(PostStore::new()), author.id)
}

fn post_dto(title: &str, content: &str, author_id: i32) -> CreatePostDto {
    CreatePostDto {
        title: title.to_owned(),
        content: content.to_owned(),
        author_id,
        metadata: None,
        published: false,
    }
}

#[test]
fn test_create_post_minimal_defaults_metadata() {
    let (users, mut posts, author_id) = services_with_author("author", "author@test.com");
    let created = posts
        .create_at(
            post_dto("Mon premier post", "Contenu du post avec au moins 10 caractères", author_id),
            &users.store,
            100,
        )
        .unwrap();
    assert_eq!(created.post.id, 1);
    assert_eq!(created.post.title, "Mon premier post");
    assert!(!created.post.published);
    assert_eq!(created.author.username, "author");
    let response = PostResponse::from_post_with_author(created.post, created.author);
    assert_eq!(response.metadata.tags.len(), 0);
    assert!(response.metadata.seo.is_none());
    assert!(response.metadata.settings.is_none());
}

#[test]
fn test_create_post_with_full_nested_objects() {
    let (users, mut posts, author_id) = services_with_author("blogger", "blogger@test.com");
    let dto = CreatePostDto {
        title: "Article complet avec metadata".to_owned(),
        content: "Contenu détaillé de l'article avec suffisamment de caractères".to_owned(),
        author_id,
        metadata: Some(CreatePostMetadataDto {
            tags: Some(vec![
                CreateTagDto { name: "rust".to_owned(), color: Some("#DEA584".to_owned()) },
                CreateTagDto { name: "api".to_owned(), color: Some("#3178C6".to_owned()) },
                CreateTagDto { name: "tutorial".to_owned(), color: None },
            ]),
            seo: Some(CreateSeoMetadataDto {
                meta_title: Some("Article complet | Mon Blog".to_owned()),
                meta_description: Some(
                    "Description SEO pour les moteurs de recherche".to_owned(),
                ),
                keywords: Some(vec!["rust".to_owned(), "backend".to_owned()]),
            }),
            settings: Some(CreatePostSettingsDto {
                allow_comments: true,
                featured: false,
                reading_time_minutes: Some(5),
            }),
        }),
        published: true,
    };
    let created = posts.create_at(dto, &users.store, 100).unwrap();
    let response = PostResponse::from_post_with_author(created.post, created.author);
    assert_eq!(response.metadata.tags.len(), 3);
    assert_eq!(response.metadata.tags[0].name, "rust");
    assert_eq!(response.metadata.tags[0].color, Some("#DEA584".to_owned()));
    assert_eq!(response.metadata.tags[2].name, "tutorial");
    let seo = response.metadata.seo.expect("the SEO block is kept");
    assert_eq!(seo.meta_title, Some("Article complet | Mon Blog".to_owned()));
    assert_eq!(seo.keywords, vec!["rust".to_owned(), "backend".to_owned()]);
    let settings = response.metadata.settings.expect("the settings block is kept");
    assert!(settings.allow_comments);
    assert!(!settings.featured);
    assert_eq!(settings.reading_time_minutes, Some(5));
    assert!(response.published);
    assert_eq!(response.author.username, "blogger");
}

#[test]
fn test_create_post_author_not_found() {
    let users = UserService::new(UserStore::new());
    let mut posts = PostService::new(PostStore::new());
    let r = posts.create_at(
        post_dto("Post sans auteur", "Contenu du post avec au moins 10 caractères", 9999),
        &users.store,
        100,
    );
    assert!(matches!(r, Err(ServiceError::NotFound)));
    let q = PaginationQuery::default();
    assert_eq!(posts.find_all(&q, &users.store).unwrap().total, 0);
}

#[test]
fn test_get_post_with_author() {
    let (users, mut posts, author_id) = services_with_author("reader", "reader@test.com");
    let created = posts
        .create_at(
            post_dto("Post à lire", "Contenu du post à récupérer", author_id),
            &users.store,
            100,
        )
        .unwrap();
    let found = posts.find_by_id(created.post.id, &users.store).unwrap();
    assert_eq!(found.post.title, "Post à lire");
    assert_eq!(found.author.username, "reader");
}

#[test]
fn test_get_post_not_found() {
    let users = UserService::new(UserStore::new());
    let posts = PostService::new(PostStore::new());
    assert!(matches!(posts.find_by_id(9999, &users.store), Err(ServiceError::NotFound)));
}

#[test]
fn test_update_post_title_only_preserves_other_fields() {
    let (users, mut posts, author_id) = services_with_author("editor", "editor@test.com");
    let created = posts
        .create_at(
            CreatePostDto {
                title: "Titre original".to_owned(),
                content: "Contenu original du post".to_owned(),
                author_id,
                metadata: Some(CreatePostMetadataDto {
                    tags: Some(vec![CreateTagDto { name: "old-tag".to_owned(), color: None }]),
                    seo: None,
                    settings: None,
                }),
                published: true,
            },
            &users.store,
            100,
        )
        .unwrap();
    let updated = posts
        .update_at(
            created.post.id,
            UpdatePostDto {
                title: Some("Nouveau titre modifié".to_owned()),
                content: None,
                metadata: None,
                published: None,
            },
            &users.store,
            200,
        )
        .unwrap();
    assert_eq!(updated.post.title, "Nouveau titre modifié");
    assert_eq!(updated.post.content, "Contenu original du post");
    assert!(updated.post.published);
    assert_eq!(updated.post.created_at, 100);
    assert_eq!(updated.post.updated_at, Some(200));
    let tags = updated.post.get_tags();
    assert_eq!(tags.len(), 1);
    assert_eq!(tags[0].name, "old-tag");
}

#[test]
fn test_update_post_replaces_whole_metadata() {
    let (users, mut posts, author_id) = services_with_author("updater", "updater@test.com");
    let created = posts
        .create_at(
            CreatePostDto {
                title: "Post avec metadata".to_owned(),
                content: "Contenu du post avec metadata".to_owned(),
                author_id,
                metadata: Some(CreatePostMetadataDto {
                    tags: Some(vec![CreateTagDto { name: "old-tag".to_owned(), color: None }]),
                    seo: None,
                    settings: None,
                }),
                published: false,
            },
            &users.store,
            100,
        )
        .unwrap();
    let updated = posts
        .update_at(
            created.post.id,
            UpdatePostDto {
                title: None,
                content: None,
                metadata: Some(CreatePostMetadataDto {
                    tags: Some(vec![
                        CreateTagDto {
                            name: "new-tag-1".to_owned(),
                            color: Some("#FF0000".to_owned()),
                        },
                        CreateTagDto {
                            name: "new-tag-2".to_owned(),
                            color: Some("#00FF00".to_owned()),
                        },
                    ]),
                    seo: Some(CreateSeoMetadataDto {
                        meta_title: Some("Nouveau SEO title".to_owned()),
                        meta_description: None,
                        keywords: None,
                    }),
                    settings: None,
                }),
                published: None,
            },
            &users.store,
            200,
        )
        .unwrap();
    let metadata = updated.post.get_metadata();
    assert_eq!(metadata.tags.len(), 2);
    assert_eq!(metadata.tags[0].name, "new-tag-1");
    assert_eq!(metadata.tags[1].name, "new-tag-2");
    let seo = metadata.seo.expect("the new SEO block replaces the old document");
    assert_eq!(seo.meta_title, Some("Nouveau SEO title".to_owned()));
    assert_eq!(seo.keywords.len(), 0);
}

#[test]
fn test_update_post_not_found() {
    let users = UserService::new(UserStore::new());
    let mut posts = PostService::new(PostStore::new());
    let r = posts.update_at(
        9999,
        UpdatePostDto { title: None, content: None, metadata: None, published: None },
        &users.store,
        200,
    );
    assert!(matches!(r, Err(ServiceError::NotFound)));
}

#[test]
fn test_delete_post() {
    let (users, mut posts, author_id) = services_with_author("deleter", "deleter@test.com");
    let created = posts
        .create_at(
            post_dto("Post à supprimer", "Ce post sera supprimé", author_id),
            &users.store,
            100,
        )
        .unwrap();
    assert!(posts.delete(created.post.id).is_ok());
    assert!(matches!(
        posts.find_by_id(created.post.id, &users.store),
        Err(ServiceError::NotFound)
    ));
}

#[test]
fn test_delete_post_not_found() {
    let mut posts = PostService::new(PostStore::new());
    assert!(matches!(posts.delete(9999), Err(ServiceError::NotFound)));
}

#[test]
fn test_list_posts_newest_first_with_pagination() {
    let (users, mut posts, author_id) = services_with_author("bulk", "bulk@test.com");
    for i in 0..5u32 {
        let title = format!("Post numéro {}", i);
        let content = format!("Contenu du post numéro {}", i);
        posts
            .create_at(post_dto(&title, &content, author_id), &users.store, 100 + i as i64)
            .unwrap();
    }
    let q = PaginationQuery { page: 1, per_page: 2 };
    let page = posts.find_all(&q, &users.store).unwrap();
    assert_eq!(page.total, 5);
    assert_eq!(page.posts.len(), 2);
    assert_eq!(page.posts[0].post.title, "Post numéro 4");
    assert_eq!(page.posts[1].post.title, "Post numéro 3");
    assert_eq!(page.posts[0].author.username, "bulk");
}

#[test]
fn test_find_by_author_lists_only_that_author() {
    let mut users = UserService::new(UserStore::new());
    let first = users
        .create_at(CreateUserDto { username: "first".to_owned(), email: "a@test.com".to_owned() }, 50)
        .unwrap();
    let second = users
        .create_at(CreateUserDto { username: "second".to_owned(), email: "b@test.com".to_owned() }, 60)
        .unwrap();
    let mut posts = PostService::new(PostStore::new());
    posts.create_at(post_dto("Un du premier", "Contenu assez long un", first.id), &users.store, 100).unwrap();
    posts.create_at(post_dto("Un du second", "Contenu assez long deux", second.id), &users.store, 110).unwrap();
    posts.create_at(post_dto("Deux du premier", "Contenu assez long trois", first.id), &users.store, 120).unwrap();
    let of_first = posts.find_by_author(first.id, &users.store).unwrap();
    assert_eq!(of_first.len(), 2);
    assert_eq!(of_first[0].post.title, "Deux du premier");
    assert_eq!(of_first[1].post.title, "Un du premier");
    assert!(matches!(posts.find_by_author(9999, &users.store), Err(ServiceError::NotFound)));
}

#[test]
fn test_find_published_filters_and_counts() {
    let (users, mut posts, author_id) = services_with_author("pub", "pub@test.com");
    for i in 0..4u32 {
        let title = format!("Brouillon ou publié {}", i);
        let mut dto = post_dto(&title, "Contenu suffisamment long ici", author_id);
        dto.published = i % 2 == 0;
        posts.create_at(dto, &users.store, 100 + i as i64).unwrap();
    }
    let q = PaginationQuery::default();
    let page = posts.find_published(&q, &users.store).unwrap();
    assert_eq!(page.total, 2);
    assert_eq!(page.posts.len(), 2);
    assert_eq!(page.posts[0].post.title, "Brouillon ou publié 2");
    assert_eq!(page.posts[1].post.title, "Brouillon ou publié 0");
}

#[test]
fn test_list_item_response_carries_excerpt_and_tags_only() {
    let (users, mut posts, author_id) = services_with_author("lister", "lister@test.com");
    let mut content = String::new();
    for _ in 0..120 {
        content.push('a');
    }
    let created = posts
        .create_at(
            CreatePostDto {
                title: "Long article".to_owned(),
                content,
                author_id,
                metadata: Some(CreatePostMetadataDto {
                    tags: Some(vec![CreateTagDto { name: "test".to_owned(), color: None }]),
                    seo: Some(CreateSeoMetadataDto {
                        meta_title: Some("SEO".to_owned()),
                        meta_description: None,
                        keywords: None,
                    }),
                    settings: None,
                }),
                published: true,
            },
            &users.store,
            100,
        )
        .unwrap();
    let item = PostListItemResponse::from_post_with_author(created.post, created.author);
    assert_eq!(item.title, "Long article");
    assert_eq!(item.excerpt.chars().count(), 103);
    assert!(item.excerpt.ends_with("..."));
    assert_eq!(item.tags.len(), 1);
    assert_eq!(item.tags[0].name, "test");
    assert_eq!(item.author.username, "lister");
}
