//! Verified core of a small blog backend: pagination arithmetic, the nested
//! post-metadata document with its JSON encoding, a cascading request
//! validator, in-memory row stores for users and posts, the entity services
//! built on them, the uniform response envelope, and the two-tier error
//! taxonomy with its fixed mapping to HTTP statuses.

mod clock;
pub mod codec;
pub mod dto_post;
pub mod dto_user;
pub mod entities;
pub mod error;
pub mod json;
pub mod metadata;
pub mod pagination;
pub mod post_service;
pub mod response;
pub mod sequence;
pub mod store;
pub mod user_service;
pub mod validation;

pub use post_service::PaginatedPosts;
pub use post_service::PostService;
pub use post_service::PostWithAuthor;
pub use user_service::PaginatedUsers;
pub use user_service::UserService;

pub use store::PostStore;
pub use store::UserStore;

pub use error::ApiError;
pub use error::ErrorResponse;
pub use error::ServiceError;
pub use response::ApiResponse;
pub use response::ApiResponseBuilder;
pub use response::PaginationMeta;
pub use sequence::SequenceCounter;
pub use sequence::next_sequence;
pub use sequence::reset_sequence;

pub use dto_post::AuthorResponse;
pub use dto_post::CreatePostDto;
pub use dto_post::CreatePostMetadataDto;
pub use dto_post::CreatePostSettingsDto;
pub use dto_post::CreateSeoMetadataDto;
pub use dto_post::CreateTagDto;
pub use dto_post::PostListItemResponse;
pub use dto_post::PostMetadataResponse;
pub use dto_post::PostResponse;
pub use dto_post::PostSettingsResponse;
pub use dto_post::SeoMetadataResponse;
pub use dto_post::TagResponse;
pub use dto_post::UpdatePostDto;
pub use dto_user::CreateUserDto;
pub use dto_user::UpdateUserDto;
pub use dto_user::UserResponse;
pub use entities::PostRecord;
pub use entities::UserRecord;
pub use json::JsonValue;
pub use metadata::PostMetadata;
pub use metadata::PostSettings;
pub use metadata::SeoMetadata;
pub use metadata::Tag;
pub use pagination::PaginationQuery;
pub use pagination::default_page;
pub use pagination::default_per_page;
pub use validation::FieldViolations;
pub use validation::ValidatedJson;
pub use validation::ValidationError;
pub use validation::Violation;
