//! The post service: paginated listing with authors, lookup, creation
//! behind a referential check on the author, partial update with a full
//! metadata replacement, deletion, and the author/published filters.

use vstd::prelude::*;

use crate::clock::now_epoch_seconds;
use crate::codec::json_of_metadata;
use crate::dto_post::CreatePostDto;
use crate::dto_post::UpdatePostDto;
use crate::dto_post::UpdatePostView;
use crate::dto_post::metadata_of_dto;
use crate::dto_post::metadata_of_opt_dto;
use crate::entities::PostRecord;
use crate::entities::PostRecordView;
use crate::entities::UserRecord;
use crate::entities::UserRecordView;
use crate::error::ServiceError;
use crate::error::ServiceErrorView;
use crate::json::JsonValue;
use crate::metadata::PostMetadata;
use crate::pagination::PaginationQuery;
use crate::store::PostStore;
use crate::store::UserStore;
use crate::store::authored_posts;
use crate::store::contains_post_id;
use crate::store::contains_user_id;
use crate::store::page_of_posts;
use crate::store::post_index_of;
use crate::store::published_posts;
use crate::store::spec_page;
use crate::store::user_index_of;

verus! {

/// A post row together with its author's row.
pub struct PostWithAuthor {
    pub post: PostRecord,
    pub author: UserRecord,
}

/// One page of posts with their authors, and the collection's total count.
pub struct PaginatedPosts {
    pub posts: Vec<PostWithAuthor>,
    pub total: u64,
}

/// Whether every post of the list has its author in the user rows.
pub open spec fn authors_resolve(page: Seq<PostRecordView>, users: Seq<UserRecordView>) -> bool {
    forall|k: int|
        0 <= k < page.len() ==> contains_user_id(users, (#[trigger] page[k]).author_id)
}

/// The user row bearing the given id.
pub open spec fn author_row(users: Seq<UserRecordView>, author_id: i32) -> UserRecordView {
    users[user_index_of(users, author_id)]
}

/// Whether a list of post-author pairs carries exactly the given posts, each
/// beside its own author row.
pub open spec fn paired_with_authors(
    pairs: Seq<PostWithAuthor>,
    page: Seq<PostRecordView>,
    users: Seq<UserRecordView>,
) -> bool {
    &&& pairs.len() == page.len()
    &&& forall|k: int|
        0 <= k < page.len() ==> (#[trigger] pairs[k]).post@ == page[k] && pairs[k].author@
            == author_row(users, page[k].author_id)
}

/// The row a post-update request leaves in place of the current one: each
/// present field replaces the stored value — a present metadata document
/// replaces the whole stored document — and the update time is stamped; id,
/// author and creation time never change.
pub open spec fn apply_post_update(cur: PostRecordView, d: UpdatePostView, now: i64) -> PostRecordView {
    PostRecordView {
        id: cur.id,
        title: match d.title {
            Some(t) => t,
            None => cur.title,
        },
        content: match d.content {
            Some(c) => c,
            None => cur.content,
        },
        author_id: cur.author_id,
        metadata: match d.metadata {
            Some(m) => json_of_metadata(metadata_of_dto(m)),
            None => cur.metadata,
        },
        published: match d.published {
            Some(p) => p,
            None => cur.published,
        },
        created_at: cur.created_at,
        updated_at: Some(now),
    }
}

/// Pairs each post with its author's row, looked up one by one; a missing
/// author fails the whole listing.
fn pair_with_authors(rows: &Vec<PostRecord>, users: &UserStore) -> (r: Result<
    Vec<PostWithAuthor>,
    ServiceError,
>)
    ensures
        match r {
            Ok(v) => authors_resolve(rows.deep_view(), users@) && paired_with_authors(
                v@,
                rows.deep_view(),
                users@,
            ),
            Err(e) => !authors_resolve(rows.deep_view(), users@) && e@
                == ServiceErrorView::NotFound,
        },
{
    let mut out: Vec<PostWithAuthor> = Vec::new();
    let n: usize = rows.len();
    for k in 0..n
        invariant
            n == rows.len(),
            out.len() == k,
            forall|j: int|
                0 <= j < k ==> contains_user_id(users@, (#[trigger] rows.deep_view()[j]).author_id),
            forall|j: int|
                0 <= j < k ==> (#[trigger] out@[j]).post@ == rows.deep_view()[j] && out@[j].author@
                    == author_row(users@, rows.deep_view()[j].author_id),
    {
        proof {
            assert(rows.deep_view()[k as int] == rows@[k as int]@);
        }
        match users.find_by_id(rows[k].author_id) {
            Some(author) => {
                out.push(PostWithAuthor { post: rows[k].clone(), author });
            },
            None => {
                proof {
                    assert(!contains_user_id(users@, rows.deep_view()[k as int].author_id));
                }
                return Err(ServiceError::NotFound);
            },
        }
    }
    Ok(out)
}

/// Business logic for post management, over the post row store; author
/// lookups go against the user row store.
pub struct PostService {
    pub store: PostStore,
}

impl PostService {
    /// A service over the given store.
    pub fn new(store: PostStore) -> (r: Self)
        ensures
            r.store == store,
    {
        PostService { store }
    }

    /// The service invariant: its store is well-formed.
    pub open spec fn wf(&self) -> bool {
        self.store.wf()
    }

    /// Lists one page of posts, most recently created first, each with its
    /// author, and the total post count; a missing author fails the listing.
    pub fn find_all(&self, pagination: &PaginationQuery, users: &UserStore) -> (r: Result<
        PaginatedPosts,
        ServiceError,
    >)
        requires
            pagination.spec_offset() <= u64::MAX,
        ensures
            ({
                let page = spec_page(
                    self.store@.reverse(),
                    pagination.spec_offset(),
                    pagination.per_page as int,
                );
                match r {
                    Ok(p) => authors_resolve(page, users@) && p.total == self.store@.len()
                        && paired_with_authors(p.posts@, page, users@),
                    Err(e) => !authors_resolve(page, users@) && e@ == ServiceErrorView::NotFound,
                }
            }),
    {
        let total = self.store.count();
        let rows = self.store.page_desc(pagination.offset(), pagination.limit());
        match pair_with_authors(&rows, users) {
            Ok(posts) => Ok(PaginatedPosts { posts, total }),
            Err(e) => Err(e),
        }
    }

    /// The post with the given id together with its author; not-found when
    /// either row is missing.
    pub fn find_by_id(&self, id: i32, users: &UserStore) -> (r: Result<
        PostWithAuthor,
        ServiceError,
    >)
        ensures
            ({
                let rows = self.store@;
                match r {
                    Ok(pwa) => contains_post_id(rows, id) && pwa.post@ == rows[post_index_of(
                        rows,
                        id,
                    )] && contains_user_id(users@, pwa.post@.author_id) && pwa.author@
                        == author_row(users@, pwa.post@.author_id),
                    Err(e) => e@ == ServiceErrorView::NotFound && (!contains_post_id(rows, id)
                        || !contains_user_id(users@, rows[post_index_of(rows, id)].author_id)),
                }
            }),
    {
        let post = match self.store.find_by_id(id) {
            Some(p) => p,
            None => {
                return Err(ServiceError::NotFound);
            },
        };
        let author = match users.find_by_id(post.author_id) {
            Some(a) => a,
            None => {
                return Err(ServiceError::NotFound);
            },
        };
        Ok(PostWithAuthor { post, author })
    }

    /// Creates a post at the given time: the author must exist, or nothing
    /// is written and not-found is answered; the new row carries the
    /// request's fields, the metadata document (defaulted when absent) in
    /// its stored JSON form, and the next id.
    pub fn create_at(&mut self, dto: CreatePostDto, users: &UserStore, now: i64) -> (r: Result<
        PostWithAuthor,
        ServiceError,
    >)
        requires
            old(self).wf(),
            old(self).store.next_id < i32::MAX,
        ensures
            final(self).wf(),
            match r {
                Ok(pwa) => contains_user_id(users@, dto@.author_id) && pwa.author@ == author_row(
                    users@,
                    dto@.author_id,
                ) && pwa.post@.id == old(self).store.next_id && pwa.post@.title == dto@.title
                    && pwa.post@.content == dto@.content && pwa.post@.author_id == dto@.author_id
                    && pwa.post@.metadata == json_of_metadata(metadata_of_opt_dto(dto@.metadata))
                    && pwa.post@.published == dto@.published && pwa.post@.created_at == now
                    && pwa.post@.updated_at is None && final(self).store@ == old(self).store@.push(pwa.post@) && final(self).store.next_id == old(self).store.next_id
                    + 1,
                Err(e) => !contains_user_id(users@, dto@.author_id) && e@
                    == ServiceErrorView::NotFound && *final(self) == *old(self),
            },
    {
        let author = match users.find_by_id(dto.author_id) {
            Some(a) => a,
            None => {
                return Err(ServiceError::NotFound);
            },
        };
        let metadata_json: JsonValue = match &dto.metadata {
            Some(m) => m.to_json(),
            None => {
                let empty = PostMetadata::default();
                empty.to_json()
            },
        };
        let post = self.store.insert(
            dto.title,
            dto.content,
            dto.author_id,
            metadata_json,
            dto.published,
            now,
        );
        Ok(PostWithAuthor { post, author })
    }

    /// Creates a post, stamping the creation time from the clock.
    pub fn create(&mut self, dto: CreatePostDto, users: &UserStore) -> (r: Result<
        PostWithAuthor,
        ServiceError,
    >)
        requires
            old(self).wf(),
            old(self).store.next_id < i32::MAX,
        ensures
            final(self).wf(),
            match r {
                Ok(pwa) => contains_user_id(users@, dto@.author_id) && pwa.author@ == author_row(
                    users@,
                    dto@.author_id,
                ) && pwa.post@.id == old(self).store.next_id && pwa.post@.title == dto@.title
                    && pwa.post@.content == dto@.content && pwa.post@.author_id == dto@.author_id
                    && pwa.post@.metadata == json_of_metadata(metadata_of_opt_dto(dto@.metadata))
                    && pwa.post@.published == dto@.published && pwa.post@.updated_at is None
                    && final(self).store@ == old(self).store@.push(pwa.post@) && final(self).store.next_id == old(self).store.next_id + 1,
                Err(e) => !contains_user_id(users@, dto@.author_id) && e@
                    == ServiceErrorView::NotFound && *final(self) == *old(self),
            },
    {
        let now = now_epoch_seconds();
        self.create_at(dto, users, now)
    }

    /// Updates a post at the given time: each present field replaces the
    /// stored value, a present metadata document replaces the whole stored
    /// document, and the update time is stamped. A missing post or a missing
    /// author answers not-found and changes nothing.
    pub fn update_at(&mut self, id: i32, dto: UpdatePostDto, users: &UserStore, now: i64) -> (r:
        Result<PostWithAuthor, ServiceError>)
        requires
            old(self).wf(),
        ensures
            final(self).wf(),
            ({
                let rows = old(self).store@;
                let idx = post_index_of(rows, id);
                match r {
                    Ok(pwa) => contains_post_id(rows, id) && contains_user_id(
                        users@,
                        rows[idx].author_id,
                    ) && pwa.post@ == apply_post_update(rows[idx], dto@, now) && pwa.author@
                        == author_row(users@, rows[idx].author_id) && final(self).store@
                        == rows.update(idx, pwa.post@) && final(self).store.next_id == old(self).store.next_id,
                    Err(e) => e@ == ServiceErrorView::NotFound && (!contains_post_id(rows, id)
                        || !contains_user_id(users@, rows[idx].author_id)) && *final(self) == *old(self),
                }
            }),
    {
        let idx: usize = match self.store.position_of_id(id) {
            Some(i) => i,
            None => {
                return Err(ServiceError::NotFound);
            },
        };
        let cur = self.store.rows[idx].clone();
        proof {
            assert(cur@ == self.store@[idx as int]);
        }
        let author = match users.find_by_id(cur.author_id) {
            Some(a) => a,
            None => {
                return Err(ServiceError::NotFound);
            },
        };
        let metadata: JsonValue = match &dto.metadata {
            Some(m) => m.to_json(),
            None => cur.metadata,
        };
        let row = PostRecord {
            id: cur.id,
            title: match dto.title {
                Some(t) => t,
                None => cur.title,
            },
            content: match dto.content {
                Some(c) => c,
                None => cur.content,
            },
            author_id: cur.author_id,
            metadata,
            published: match dto.published {
                Some(p) => p,
                None => cur.published,
            },
            created_at: cur.created_at,
            updated_at: Some(now),
        };
        let result = row.clone();
        self.store.set_row(idx, row);
        Ok(PostWithAuthor { post: result, author })
    }

    /// Updates a post, stamping the update time from the clock.
    pub fn update(&mut self, id: i32, dto: UpdatePostDto, users: &UserStore) -> (r: Result<
        PostWithAuthor,
        ServiceError,
    >)
        requires
            old(self).wf(),
        ensures
            final(self).wf(),
            ({
                let rows = old(self).store@;
                let idx = post_index_of(rows, id);
                match r {
                    Ok(pwa) => contains_post_id(rows, id) && contains_user_id(
                        users@,
                        rows[idx].author_id,
                    ) && (exists|now: i64| pwa.post@ == apply_post_update(rows[idx], dto@, now))
                        && pwa.author@ == author_row(users@, rows[idx].author_id) && final(self).store@ == rows.update(idx, pwa.post@) && final(self).store.next_id == old(self).store.next_id,
                    Err(e) => e@ == ServiceErrorView::NotFound && (!contains_post_id(rows, id)
                        || !contains_user_id(users@, rows[idx].author_id)) && *final(self) == *old(self),
                }
            }),
    {
        let now = now_epoch_seconds();
        let r = self.update_at(id, dto, users, now);
        proof {
            match &r {
                Ok(pwa) => {
                    assert(pwa.post@ == apply_post_update(
                        old(self).store@[post_index_of(old(self).store@, id)],
                        dto@,
                        now,
                    ));
                },
                Err(_) => {},
            }
        }
        r
    }

    /// Deletes the post with the given id, or answers not-found.
    pub fn delete(&mut self, id: i32) -> (r: Result<(), ServiceError>)
        requires
            old(self).wf(),
        ensures
            final(self).wf(),
            match r {
                Ok(_) => contains_post_id(old(self).store@, id) && final(self).store@ == old(self).store@.remove(post_index_of(old(self).store@, id)) && final(self).store.next_id
                    == old(self).store.next_id,
                Err(e) => !contains_post_id(old(self).store@, id) && e@
                    == ServiceErrorView::NotFound && final(self).store@ == old(self).store@
                    && final(self).store.next_id == old(self).store.next_id,
            },
    {
        if self.store.delete(id) {
            Ok(())
        } else {
            Err(ServiceError::NotFound)
        }
    }

    /// All posts of one author, most recently created first, each paired
    /// with that author; a missing author answers not-found.
    pub fn find_by_author(&self, author_id: i32, users: &UserStore) -> (r: Result<
        Vec<PostWithAuthor>,
        ServiceError,
    >)
        ensures
            ({
                let posts = authored_posts(self.store@, author_id);
                match r {
                    Ok(v) => contains_user_id(users@, author_id) && paired_with_authors(
                        v@,
                        posts,
                        users@,
                    ),
                    Err(e) => !contains_user_id(users@, author_id) && e@
                        == ServiceErrorView::NotFound,
                }
            }),
    {
        let author = match users.find_by_id(author_id) {
            Some(a) => a,
            None => {
                return Err(ServiceError::NotFound);
            },
        };
        let rows = self.store.by_author(author_id);
        let ghost posts = authored_posts(self.store@, author_id);
        proof {
            lemma_authored_all_match(self.store@, author_id);
        }
        let mut out: Vec<PostWithAuthor> = Vec::new();
        let n: usize = rows.len();
        for k in 0..n
            invariant
                n == rows.len(),
                rows.deep_view() == posts,
                author@ == author_row(users@, author_id),
                forall|j: int| 0 <= j < posts.len() ==> (#[trigger] posts[j]).author_id == author_id,
                out.len() == k,
                forall|j: int|
                    0 <= j < k ==> (#[trigger] out@[j]).post@ == posts[j] && out@[j].author@
                        == author_row(users@, posts[j].author_id),
        {
            proof {
                assert(rows.deep_view()[k as int] == rows@[k as int]@);
            }
            out.push(PostWithAuthor { post: rows[k].clone(), author: author.clone() });
        }
        Ok(out)
    }

    /// Lists one page of the published posts, most recently created first,
    /// each with its author, and the total published count.
    pub fn find_published(&self, pagination: &PaginationQuery, users: &UserStore) -> (r: Result<
        PaginatedPosts,
        ServiceError,
    >)
        requires
            pagination.spec_offset() <= u64::MAX,
        ensures
            ({
                let pubs = published_posts(self.store@);
                let page = spec_page(pubs, pagination.spec_offset(), pagination.per_page as int);
                match r {
                    Ok(p) => authors_resolve(page, users@) && p.total == pubs.len()
                        && paired_with_authors(p.posts@, page, users@),
                    Err(e) => !authors_resolve(page, users@) && e@ == ServiceErrorView::NotFound,
                }
            }),
    {
        let pubs = self.store.published_desc();
        let total: u64 = pubs.len() as u64;
        proof {
            assert(pubs.deep_view().len() == pubs@.len());
        }
        let page = page_of_posts(&pubs, pagination.offset(), pagination.limit());
        match pair_with_authors(&page, users) {
            Ok(posts) => Ok(PaginatedPosts { posts, total }),
            Err(e) => Err(e),
        }
    }
}

/// Default metadata: a post created without a metadata document stores the
/// default document, and every later decode of that row yields the default
/// document — no tags, no SEO block, no settings block.
pub proof fn lemma_absent_metadata_defaults(post: PostRecordView)
    requires
        post.metadata == json_of_metadata(metadata_of_opt_dto(None)),
    ensures
        post.stored_metadata() == crate::metadata::MetadataView::default_value(),
        post.stored_metadata().tags.len() == 0,
        post.stored_metadata().seo is None,
        post.stored_metadata().settings is None,
{
    crate::codec::lemma_metadata_round_trip(crate::metadata::MetadataView::default_value());
}

/// Partial update keeps untouched fields: an update naming only the title
/// leaves the content, the metadata document, the published flag, the
/// author and the creation time exactly as they were.
pub proof fn lemma_partial_update_preserves(cur: PostRecordView, d: UpdatePostView, now: i64)
    requires
        d.content is None,
        d.metadata is None,
        d.published is None,
    ensures
        apply_post_update(cur, d, now).content == cur.content,
        apply_post_update(cur, d, now).metadata == cur.metadata,
        apply_post_update(cur, d, now).published == cur.published,
        apply_post_update(cur, d, now).author_id == cur.author_id,
        apply_post_update(cur, d, now).created_at == cur.created_at,
        apply_post_update(cur, d, now).id == cur.id,
{
}

/// Every row of an author's listing carries that author.
proof fn lemma_authored_all_match(rows: Seq<PostRecordView>, author_id: i32)
    ensures
        forall|j: int|
            0 <= j < authored_posts(rows, author_id).len() ==> (#[trigger] authored_posts(
                rows,
                author_id,
            )[j]).author_id == author_id,
    decreases rows.len(),
{
    if rows.len() > 0 {
        lemma_authored_all_match(rows.drop_last(), author_id);
        if rows.last().author_id == author_id {
            assert(forall|j: int|
                0 <= j < authored_posts(rows, author_id).len() ==> authored_posts(
                    rows,
                    author_id,
                )[j] == (seq![rows.last()] + authored_posts(rows.drop_last(), author_id))[j]);
        }
    }
}

} // verus!
