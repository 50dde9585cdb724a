//! Request and response shapes for posts, and the conversions between them,
//! the stored rows and the metadata document.

use vstd::prelude::*;

use crate::codec::json_of_metadata;
use crate::entities::PostRecord;
use crate::entities::UserRecord;
use crate::json::JsonValue;
use crate::metadata::MetadataView;
use crate::metadata::PostMetadata;
use crate::metadata::PostSettings;
use crate::metadata::SeoMetadata;
use crate::metadata::SeoView;
use crate::metadata::SettingsView;
use crate::metadata::Tag;
use crate::metadata::TagView;
use crate::metadata::clone_opt_string;
use vstd::string::StrSliceExecFns;
use vstd::string::StringExecFns;

verus! {

// ---------------------------------------------------------------------------
// Input shapes.
// ---------------------------------------------------------------------------
/// An inbound tag.
pub struct CreateTagDto {
    pub name: String,
    pub color: Option<String>,
}

impl View for CreateTagDto {
    type V = TagView;

    open spec fn view(&self) -> TagView {
        TagView { name: self.name@, color: self.color.deep_view() }
    }
}

impl DeepView for CreateTagDto {
    type V = TagView;

    open spec fn deep_view(&self) -> TagView {
        self.view()
    }
}

/// An inbound SEO block; its keyword list may be left out entirely.
pub struct CreateSeoMetadataDto {
    pub meta_title: Option<String>,
    pub meta_description: Option<String>,
    pub keywords: Option<Vec<String>>,
}

/// Mathematical view of a [`CreateSeoMetadataDto`].
#[verifier::ext_equal]
pub ghost struct SeoDtoView {
    pub meta_title: Option<Seq<char>>,
    pub meta_description: Option<Seq<char>>,
    pub keywords: Option<Seq<Seq<char>>>,
}

impl View for CreateSeoMetadataDto {
    type V = SeoDtoView;

    open spec fn view(&self) -> SeoDtoView {
        SeoDtoView {
            meta_title: self.meta_title.deep_view(),
            meta_description: self.meta_description.deep_view(),
            keywords: self.keywords.deep_view(),
        }
    }
}

/// An inbound settings block.
pub struct CreatePostSettingsDto {
    pub allow_comments: bool,
    pub featured: bool,
    pub reading_time_minutes: Option<i32>,
}

impl View for CreatePostSettingsDto {
    type V = SettingsView;

    open spec fn view(&self) -> SettingsView {
        SettingsView {
            allow_comments: self.allow_comments,
            featured: self.featured,
            reading_time_minutes: self.reading_time_minutes,
        }
    }
}

/// An inbound metadata document; every part may be left out.
pub struct CreatePostMetadataDto {
    pub tags: Option<Vec<CreateTagDto>>,
    pub seo: Option<CreateSeoMetadataDto>,
    pub settings: Option<CreatePostSettingsDto>,
}

/// Mathematical view of a [`CreatePostMetadataDto`].
#[verifier::ext_equal]
pub ghost struct MetadataDtoView {
    pub tags: Option<Seq<TagView>>,
    pub seo: Option<SeoDtoView>,
    pub settings: Option<SettingsView>,
}

impl View for CreatePostMetadataDto {
    type V = MetadataDtoView;

    open spec fn view(&self) -> MetadataDtoView {
        MetadataDtoView {
            tags: self.tags.deep_view(),
            seo: match self.seo {
                Some(s) => Some(s@),
                None => None,
            },
            settings: match self.settings {
                Some(s) => Some(s@),
                None => None,
            },
        }
    }
}

impl Default for CreatePostMetadataDto {
    /// An inbound document with every part left out.
    fn default() -> (r: Self)
        ensures
            r@.tags is None,
            r@.seo is None,
            r@.settings is None,
    {
        CreatePostMetadataDto { tags: None, seo: None, settings: None }
    }
}

/// The body of a post-creation request.
pub struct CreatePostDto {
    pub title: String,
    pub content: String,
    pub author_id: i32,
    pub metadata: Option<CreatePostMetadataDto>,
    pub published: bool,
}

/// Mathematical view of a [`CreatePostDto`].
#[verifier::ext_equal]
pub ghost struct CreatePostView {
    pub title: Seq<char>,
    pub content: Seq<char>,
    pub author_id: i32,
    pub metadata: Option<MetadataDtoView>,
    pub published: bool,
}

impl View for CreatePostDto {
    type V = CreatePostView;

    open spec fn view(&self) -> CreatePostView {
        CreatePostView {
            title: self.title@,
            content: self.content@,
            author_id: self.author_id,
            metadata: match self.metadata {
                Some(m) => Some(m@),
                None => None,
            },
            published: self.published,
        }
    }
}

/// The body of a post-update request; absent fields leave the stored value
/// untouched.
pub struct UpdatePostDto {
    pub title: Option<String>,
    pub content: Option<String>,
    pub metadata: Option<CreatePostMetadataDto>,
    pub published: Option<bool>,
}

/// Mathematical view of an [`UpdatePostDto`].
#[verifier::ext_equal]
pub ghost struct UpdatePostView {
    pub title: Option<Seq<char>>,
    pub content: Option<Seq<char>>,
    pub metadata: Option<MetadataDtoView>,
    pub published: Option<bool>,
}

impl View for UpdatePostDto {
    type V = UpdatePostView;

    open spec fn view(&self) -> UpdatePostView {
        UpdatePostView {
            title: self.title.deep_view(),
            content: self.content.deep_view(),
            metadata: match self.metadata {
                Some(m) => Some(m@),
                None => None,
            },
            published: self.published,
        }
    }
}

// ---------------------------------------------------------------------------
// Input conversion: filling defaults turns an inbound document into the
// stored document shape.
// ---------------------------------------------------------------------------
/// An inbound SEO block becomes a stored one by defaulting the keyword list
/// to empty.
pub open spec fn seo_of_dto(d: SeoDtoView) -> SeoView {
    SeoView {
        meta_title: d.meta_title,
        meta_description: d.meta_description,
        keywords: match d.keywords {
            Some(ks) => ks,
            None => Seq::empty(),
        },
    }
}

/// An inbound metadata document becomes a stored one by defaulting the tag
/// list to empty and keeping the optional blocks as given.
pub open spec fn metadata_of_dto(d: MetadataDtoView) -> MetadataView {
    MetadataView {
        tags: match d.tags {
            Some(ts) => ts,
            None => Seq::empty(),
        },
        seo: match d.seo {
            Some(s) => Some(seo_of_dto(s)),
            None => None,
        },
        settings: d.settings,
    }
}

/// An absent metadata document is stored as the default document.
pub open spec fn metadata_of_opt_dto(d: Option<MetadataDtoView>) -> MetadataView {
    match d {
        Some(m) => metadata_of_dto(m),
        None => MetadataView::default_value(),
    }
}

impl CreateTagDto {
    /// The stored tag this inbound tag becomes.
    pub fn to_tag(&self) -> (r: Tag)
        ensures
            r@ == self@,
    {
        Tag { name: self.name.clone(), color: clone_opt_string(&self.color) }
    }
}

impl CreateSeoMetadataDto {
    /// The stored SEO block this inbound block becomes.
    pub fn to_seo(&self) -> (r: SeoMetadata)
        ensures
            r@ == seo_of_dto(self@),
    {
        let keywords: Vec<String> = match &self.keywords {
            Some(ks) => {
                let mut out: Vec<String> = Vec::new();
                let n: usize = ks.len();
                for i in 0..n
                    invariant
                        n == ks.len(),
                        out.len() == i,
                        forall|j: int| 0 <= j < i ==> out@[j]@ == ks@[j]@,
                {
                    out.push(ks[i].clone());
                }
                proof {
                    assert(out.deep_view() =~= ks.deep_view());
                }
                out
            },
            None => Vec::new(),
        };
        proof {
            if self.keywords is None {
                assert(keywords.deep_view() =~= Seq::<Seq<char>>::empty());
            }
        }
        SeoMetadata {
            meta_title: clone_opt_string(&self.meta_title),
            meta_description: clone_opt_string(&self.meta_description),
            keywords,
        }
    }
}

impl CreatePostSettingsDto {
    /// The stored settings block this inbound block becomes.
    pub fn to_settings(&self) -> (r: PostSettings)
        ensures
            r@ == self@,
    {
        PostSettings {
            allow_comments: self.allow_comments,
            featured: self.featured,
            reading_time_minutes: self.reading_time_minutes,
        }
    }
}

impl CreatePostMetadataDto {
    /// The stored document this inbound document becomes.
    pub fn to_metadata(&self) -> (r: PostMetadata)
        ensures
            r@ == metadata_of_dto(self@),
    {
        let tags: Vec<Tag> = match &self.tags {
            Some(ts) => {
                let mut out: Vec<Tag> = Vec::new();
                let n: usize = ts.len();
                for i in 0..n
                    invariant
                        n == ts.len(),
                        out.len() == i,
                        forall|j: int| 0 <= j < i ==> out@[j]@ == ts@[j]@,
                {
                    out.push(ts[i].to_tag());
                }
                proof {
                    assert(out.deep_view() =~= ts.deep_view());
                }
                out
            },
            None => Vec::new(),
        };
        proof {
            if self.tags is None {
                assert(tags.deep_view() =~= Seq::<TagView>::empty());
            }
        }
        let seo: Option<SeoMetadata> = match &self.seo {
            Some(s) => Some(s.to_seo()),
            None => None,
        };
        let settings: Option<PostSettings> = match &self.settings {
            Some(s) => Some(s.to_settings()),
            None => None,
        };
        PostMetadata { tags, seo, settings }
    }

    /// The JSON value stored for this inbound document.
    pub fn to_json(&self) -> (r: JsonValue)
        ensures
            r@ == json_of_metadata(metadata_of_dto(self@)),
    {
        let m = self.to_metadata();
        m.to_json()
    }
}

// ---------------------------------------------------------------------------
// Output shapes.
// ---------------------------------------------------------------------------
/// A tag as returned to the caller.
pub struct TagResponse {
    pub name: String,
    pub color: Option<String>,
}

impl View for TagResponse {
    type V = TagView;

    open spec fn view(&self) -> TagView {
        TagView { name: self.name@, color: self.color.deep_view() }
    }
}

impl DeepView for TagResponse {
    type V = TagView;

    open spec fn deep_view(&self) -> TagView {
        self.view()
    }
}

/// An SEO block as returned to the caller.
pub struct SeoMetadataResponse {
    pub meta_title: Option<String>,
    pub meta_description: Option<String>,
    pub keywords: Vec<String>,
}

impl View for SeoMetadataResponse {
    type V = SeoView;

    open spec fn view(&self) -> SeoView {
        SeoView {
            meta_title: self.meta_title.deep_view(),
            meta_description: self.meta_description.deep_view(),
            keywords: self.keywords.deep_view(),
        }
    }
}

/// A settings block as returned to the caller.
pub struct PostSettingsResponse {
    pub allow_comments: bool,
    pub featured: bool,
    pub reading_time_minutes: Option<i32>,
}

impl View for PostSettingsResponse {
    type V = SettingsView;

    open spec fn view(&self) -> SettingsView {
        SettingsView {
            allow_comments: self.allow_comments,
            featured: self.featured,
            reading_time_minutes: self.reading_time_minutes,
        }
    }
}

/// A metadata document as returned to the caller.
pub struct PostMetadataResponse {
    pub tags: Vec<TagResponse>,
    pub seo: Option<SeoMetadataResponse>,
    pub settings: Option<PostSettingsResponse>,
}

impl View for PostMetadataResponse {
    type V = MetadataView;

    open spec fn view(&self) -> MetadataView {
        MetadataView {
            tags: self.tags.deep_view(),
            seo: match self.seo {
                Some(s) => Some(s@),
                None => None,
            },
            settings: match self.settings {
                Some(s) => Some(s@),
                None => None,
            },
        }
    }
}

/// The reduced author embedded in post responses.
pub struct AuthorResponse {
    pub id: i32,
    pub username: String,
    pub email: String,
}

/// Mathematical view of an [`AuthorResponse`].
pub ghost struct AuthorView {
    pub id: i32,
    pub username: Seq<char>,
    pub email: Seq<char>,
}

impl View for AuthorResponse {
    type V = AuthorView;

    open spec fn view(&self) -> AuthorView {
        AuthorView { id: self.id, username: self.username@, email: self.email@ }
    }
}

/// A full post as returned to the caller.
pub struct PostResponse {
    pub id: i32,
    pub title: String,
    pub content: String,
    pub published: bool,
    pub created_at: i64,
    pub updated_at: Option<i64>,
    pub author: AuthorResponse,
    pub metadata: PostMetadataResponse,
}

/// Mathematical view of a [`PostResponse`].
pub ghost struct PostResponseView {
    pub id: i32,
    pub title: Seq<char>,
    pub content: Seq<char>,
    pub published: bool,
    pub created_at: i64,
    pub updated_at: Option<i64>,
    pub author: AuthorView,
    pub metadata: MetadataView,
}

impl View for PostResponse {
    type V = PostResponseView;

    open spec fn view(&self) -> PostResponseView {
        PostResponseView {
            id: self.id,
            title: self.title@,
            content: self.content@,
            published: self.published,
            created_at: self.created_at,
            updated_at: self.updated_at,
            author: self.author@,
            metadata: self.metadata@,
        }
    }
}

/// The lighter post shape used in collection listings.
pub struct PostListItemResponse {
    pub id: i32,
    pub title: String,
    /// The first stretch of the content (see [`excerpt_of`]).
    pub excerpt: String,
    pub published: bool,
    pub created_at: i64,
    pub author: AuthorResponse,
    pub tags: Vec<TagResponse>,
}

/// Mathematical view of a [`PostListItemResponse`].
pub ghost struct PostListItemView {
    pub id: i32,
    pub title: Seq<char>,
    pub excerpt: Seq<char>,
    pub published: bool,
    pub created_at: i64,
    pub author: AuthorView,
    pub tags: Seq<TagView>,
}

impl View for PostListItemResponse {
    type V = PostListItemView;

    open spec fn view(&self) -> PostListItemView {
        PostListItemView {
            id: self.id,
            title: self.title@,
            excerpt: self.excerpt@,
            published: self.published,
            created_at: self.created_at,
            author: self.author@,
            tags: self.tags.deep_view(),
        }
    }
}

// ---------------------------------------------------------------------------
// Output conversion.
// ---------------------------------------------------------------------------
/// The view a stored user row takes as an embedded author.
pub open spec fn author_of_user(u: crate::entities::UserRecordView) -> AuthorView {
    AuthorView { id: u.id, username: u.username, email: u.email }
}

impl AuthorResponse {
    /// The reduced author shape of a stored user row.
    pub fn from_user(u: &UserRecord) -> (r: AuthorResponse)
        ensures
            r@ == author_of_user(u@),
    {
        AuthorResponse { id: u.id, username: u.username.clone(), email: u.email.clone() }
    }
}

/// Converts a stored tag list into its response shape.
pub fn tags_to_response(tags: &Vec<Tag>) -> (r: Vec<TagResponse>)
    ensures
        r.deep_view() == tags.deep_view(),
{
    let mut out: Vec<TagResponse> = Vec::new();
    let n: usize = tags.len();
    for i in 0..n
        invariant
            n == tags.len(),
            out.len() == i,
            forall|j: int| 0 <= j < i ==> out@[j]@ == tags@[j]@,
    {
        out.push(
            TagResponse { name: tags[i].name.clone(), color: clone_opt_string(&tags[i].color) },
        );
    }
    proof {
        assert(out.deep_view() =~= tags.deep_view());
    }
    out
}

impl PostMetadataResponse {
    /// The response shape of a stored metadata document.
    pub fn from_metadata(m: &PostMetadata) -> (r: PostMetadataResponse)
        ensures
            r@ == m@,
    {
        let tags = tags_to_response(&m.tags);
        let seo: Option<SeoMetadataResponse> = match &m.seo {
            Some(s) => {
                let c = s.clone();
                Some(
                    SeoMetadataResponse {
                        meta_title: c.meta_title,
                        meta_description: c.meta_description,
                        keywords: c.keywords,
                    },
                )
            },
            None => None,
        };
        let settings: Option<PostSettingsResponse> = match &m.settings {
            Some(s) => Some(
                PostSettingsResponse {
                    allow_comments: s.allow_comments,
                    featured: s.featured,
                    reading_time_minutes: s.reading_time_minutes,
                },
            ),
            None => None,
        };
        PostMetadataResponse { tags, seo, settings }
    }
}

impl PostResponse {
    /// The full response for a post and its author: every stored field, the
    /// decoded metadata document, and the reduced author.
    pub fn from_post_with_author(post: PostRecord, author: UserRecord) -> (r: PostResponse)
        ensures
            r@.id == post@.id,
            r@.title == post@.title,
            r@.content == post@.content,
            r@.published == post@.published,
            r@.created_at == post@.created_at,
            r@.updated_at == post@.updated_at,
            r@.author == author_of_user(author@),
            r@.metadata == post@.stored_metadata(),
    {
        let metadata = post.get_metadata();
        PostResponse {
            id: post.id,
            title: post.title,
            content: post.content,
            published: post.published,
            created_at: post.created_at,
            updated_at: post.updated_at,
            author: AuthorResponse::from_user(&author),
            metadata: PostMetadataResponse::from_metadata(&metadata),
        }
    }
}

/// The excerpt shown for a post in collection listings: contents of at most
/// 100 characters are kept whole; longer contents are cut to their first 100
/// characters with an ellipsis marker appended.
pub open spec fn excerpt_of(content: Seq<char>) -> Seq<char> {
    if content.len() > 100 {
        content.subrange(0, 100) + "..."@
    } else {
        content
    }
}

/// Builds the listing excerpt of a post's content.
pub fn make_excerpt(content: &String) -> (r: String)
    ensures
        r@ == excerpt_of(content@),
{
    let len: usize = content.as_str().unicode_len();
    if len > 100 {
        let head = content.as_str().substring_char(0, 100);
        head.to_owned().concat("...")
    } else {
        content.clone()
    }
}

/// Excerpt truncation: a content longer than 100 characters yields exactly
/// its first 100 characters followed by the three-character ellipsis marker;
/// a content of at most 100 characters is kept whole, with no marker.
pub proof fn lemma_excerpt_shape(content: Seq<char>)
    ensures
        content.len() > 100 ==> excerpt_of(content).len() == 103 && excerpt_of(content).subrange(
            0,
            100,
        ) == content.subrange(0, 100) && excerpt_of(content).subrange(100, 103) == "..."@,
        content.len() <= 100 ==> excerpt_of(content) == content,
{
    reveal_strlit("...");
    assert("..."@.len() == 3);
    if content.len() > 100 {
        assert(excerpt_of(content).subrange(0, 100) =~= content.subrange(0, 100));
        assert(excerpt_of(content).subrange(100, 103) =~= "..."@);
    }
}

impl PostListItemResponse {
    /// The listing shape for a post and its author: the excerpt in place of
    /// the content, and only the tag list from the metadata document.
    pub fn from_post_with_author(post: PostRecord, author: UserRecord) -> (r: PostListItemResponse)
        ensures
            r@.id == post@.id,
            r@.title == post@.title,
            r@.excerpt == excerpt_of(post@.content),
            r@.published == post@.published,
            r@.created_at == post@.created_at,
            r@.author == author_of_user(author@),
            r@.tags == post@.stored_metadata().tags,
    {
        let excerpt = make_excerpt(&post.content);
        let tags = post.get_tags();
        PostListItemResponse {
            id: post.id,
            title: post.title,
            excerpt,
            published: post.published,
            created_at: post.created_at,
            author: AuthorResponse::from_user(&author),
            tags: tags_to_response(&tags),
        }
    }
}

} // verus!
