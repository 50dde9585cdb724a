//! The persisted row shapes of the two entities. Timestamps are held as
//! seconds since the Unix epoch; a post's metadata column holds the JSON
//! document of [`crate::metadata::PostMetadata`].

use vstd::prelude::*;

use crate::codec::parse_metadata;
use crate::json::JsonValue;
use crate::metadata::MetadataView;
use crate::metadata::PostMetadata;
use crate::metadata::Tag;

verus! {

/// A stored user row.
pub struct UserRecord {
    pub id: i32,
    pub username: String,
    pub email: String,
    /// Creation time, seconds since the Unix epoch.
    pub created_at: i64,
}

/// Mathematical view of a [`UserRecord`].
pub ghost struct UserRecordView {
    pub id: i32,
    pub username: Seq<char>,
    pub email: Seq<char>,
    pub created_at: i64,
}

impl View for UserRecord {
    type V = UserRecordView;

    open spec fn view(&self) -> UserRecordView {
        UserRecordView {
            id: self.id,
            username: self.username@,
            email: self.email@,
            created_at: self.created_at,
        }
    }
}

impl DeepView for UserRecord {
    type V = UserRecordView;

    open spec fn deep_view(&self) -> UserRecordView {
        self.view()
    }
}

impl Clone for UserRecord {
    fn clone(&self) -> (r: Self)
        ensures
            r@ == self@,
    {
        UserRecord {
            id: self.id,
            username: self.username.clone(),
            email: self.email.clone(),
            created_at: self.created_at,
        }
    }
}

/// A stored post row.
pub struct PostRecord {
    pub id: i32,
    pub title: String,
    pub content: String,
    /// Reference to the author's user row.
    pub author_id: i32,
    /// The metadata document in its stored JSON form.
    pub metadata: JsonValue,
    pub published: bool,
    /// Creation time, seconds since the Unix epoch.
    pub created_at: i64,
    /// Time of the last change, if the row was ever changed.
    pub updated_at: Option<i64>,
}

/// Mathematical view of a [`PostRecord`].
pub ghost struct PostRecordView {
    pub id: i32,
    pub title: Seq<char>,
    pub content: Seq<char>,
    pub author_id: i32,
    pub metadata: crate::json::JsonView,
    pub published: bool,
    pub created_at: i64,
    pub updated_at: Option<i64>,
}

impl View for PostRecord {
    type V = PostRecordView;

    open spec fn view(&self) -> PostRecordView {
        PostRecordView {
            id: self.id,
            title: self.title@,
            content: self.content@,
            author_id: self.author_id,
            metadata: self.metadata@,
            published: self.published,
            created_at: self.created_at,
            updated_at: self.updated_at,
        }
    }
}

impl DeepView for PostRecord {
    type V = PostRecordView;

    open spec fn deep_view(&self) -> PostRecordView {
        self.view()
    }
}

impl Clone for PostRecord {
    fn clone(&self) -> (r: Self)
        ensures
            r@ == self@,
    {
        PostRecord {
            id: self.id,
            title: self.title.clone(),
            content: self.content.clone(),
            author_id: self.author_id,
            metadata: self.metadata.clone(),
            published: self.published,
            created_at: self.created_at,
            updated_at: self.updated_at,
        }
    }
}

impl PostRecordView {
    /// The metadata document this row carries: the decoded column, or the
    /// default document where the column does not match the schema.
    pub open spec fn stored_metadata(&self) -> MetadataView {
        match parse_metadata(self.metadata) {
            Some(m) => m,
            None => MetadataView::default_value(),
        }
    }
}

impl PostRecord {
    /// Decodes the metadata column into its typed document, falling back to
    /// the default document where the stored value does not match the schema.
    pub fn get_metadata(&self) -> (r: PostMetadata)
        ensures
            r@ == self@.stored_metadata(),
    {
        PostMetadata::from_json_or_default(&self.metadata)
    }

    /// The tag list of the metadata column.
    pub fn get_tags(&self) -> (r: Vec<Tag>)
        ensures
            r.deep_view() == self@.stored_metadata().tags,
    {
        let m = self.get_metadata();
        m.tags
    }
}

} // verus!
