//! The nested document stored on every post: tags, an optional SEO block and
//! an optional settings block, with mathematical views and deep equality.

use vstd::prelude::*;

verus! {

/// A tag with a name and an optional display colour.
pub struct Tag {
    pub name: String,
    pub color: Option<String>,
}

/// Mathematical view of a [`Tag`].
#[verifier::ext_equal]
pub ghost struct TagView {
    pub name: Seq<char>,
    pub color: Option<Seq<char>>,
}

/// The SEO block of a post's metadata.
pub struct SeoMetadata {
    pub meta_title: Option<String>,
    pub meta_description: Option<String>,
    pub keywords: Vec<String>,
}

/// Mathematical view of a [`SeoMetadata`].
#[verifier::ext_equal]
pub ghost struct SeoView {
    pub meta_title: Option<Seq<char>>,
    pub meta_description: Option<Seq<char>>,
    pub keywords: Seq<Seq<char>>,
}

/// The settings block of a post's metadata.
pub struct PostSettings {
    pub allow_comments: bool,
    pub featured: bool,
    pub reading_time_minutes: Option<i32>,
}

/// Mathematical view of a [`PostSettings`].
#[verifier::ext_equal]
pub ghost struct SettingsView {
    pub allow_comments: bool,
    pub featured: bool,
    pub reading_time_minutes: Option<i32>,
}

/// The whole metadata document of a post.
pub struct PostMetadata {
    pub tags: Vec<Tag>,
    pub seo: Option<SeoMetadata>,
    pub settings: Option<PostSettings>,
}

/// Mathematical view of a [`PostMetadata`].
#[verifier::ext_equal]
pub ghost struct MetadataView {
    pub tags: Seq<TagView>,
    pub seo: Option<SeoView>,
    pub settings: Option<SettingsView>,
}

impl MetadataView {
    /// The document stored when a request carries no metadata at all.
    pub open spec fn default_value() -> MetadataView {
        MetadataView { tags: Seq::empty(), seo: None, settings: None }
    }
}

impl View for Tag {
    type V = TagView;

    open spec fn view(&self) -> TagView {
        TagView { name: self.name@, color: self.color.deep_view() }
    }
}

impl DeepView for Tag {
    type V = TagView;

    open spec fn deep_view(&self) -> TagView {
        self.view()
    }
}

impl View for SeoMetadata {
    type V = SeoView;

    open spec fn view(&self) -> SeoView {
        SeoView {
            meta_title: self.meta_title.deep_view(),
            meta_description: self.meta_description.deep_view(),
            keywords: self.keywords.deep_view(),
        }
    }
}

impl DeepView for SeoMetadata {
    type V = SeoView;

    open spec fn deep_view(&self) -> SeoView {
        self.view()
    }
}

impl View for PostSettings {
    type V = SettingsView;

    open spec fn view(&self) -> SettingsView {
        SettingsView {
            allow_comments: self.allow_comments,
            featured: self.featured,
            reading_time_minutes: self.reading_time_minutes,
        }
    }
}

impl DeepView for PostSettings {
    type V = SettingsView;

    open spec fn deep_view(&self) -> SettingsView {
        self.view()
    }
}

impl View for PostMetadata {
    type V = MetadataView;

    open spec fn view(&self) -> MetadataView {
        MetadataView {
            tags: self.tags.deep_view(),
            seo: self.seo.deep_view(),
            settings: self.settings.deep_view(),
        }
    }
}

impl DeepView for PostMetadata {
    type V = MetadataView;

    open spec fn deep_view(&self) -> MetadataView {
        self.view()
    }
}

impl Default for PostMetadata {
    /// The stored form of an absent metadata document: no tags, no SEO block,
    /// no settings block.
    fn default() -> (r: Self)
        ensures
            r@ == MetadataView::default_value(),
    {
        let r = PostMetadata { tags: Vec::new(), seo: None, settings: None };
        proof {
            assert(r@.tags =~= Seq::<TagView>::empty());
        }
        r
    }
}

/// Copies an optional string.
pub fn clone_opt_string(s: &Option<String>) -> (r: Option<String>)
    ensures
        r.deep_view() == s.deep_view(),
{
    match s {
        Some(v) => Some(v.clone()),
        None => None,
    }
}

/// Compares two optional strings by contents.
pub fn opt_string_eq(a: &Option<String>, b: &Option<String>) -> (r: bool)
    ensures
        r == (a.deep_view() == b.deep_view()),
{
    match (a, b) {
        (None, None) => true,
        (Some(x), Some(y)) => *x == *y,
        _ => false,
    }
}

impl Clone for Tag {
    fn clone(&self) -> (r: Self)
        ensures
            r@ == self@,
    {
        Tag { name: self.name.clone(), color: clone_opt_string(&self.color) }
    }
}

impl Clone for SeoMetadata {
    fn clone(&self) -> (r: Self)
        ensures
            r@ == self@,
    {
        let mut keywords: Vec<String> = Vec::new();
        let n: usize = self.keywords.len();
        for i in 0..n
            invariant
                n == self.keywords.len(),
                keywords.len() == i,
                forall|j: int| 0 <= j < i ==> keywords@[j]@ == self.keywords@[j]@,
        {
            keywords.push(self.keywords[i].clone());
        }
        proof {
            assert(keywords.deep_view() =~= self.keywords.deep_view());
        }
        SeoMetadata {
            meta_title: clone_opt_string(&self.meta_title),
            meta_description: clone_opt_string(&self.meta_description),
            keywords,
        }
    }
}

impl Clone for PostSettings {
    fn clone(&self) -> (r: Self)
        ensures
            r@ == self@,
    {
        PostSettings {
            allow_comments: self.allow_comments,
            featured: self.featured,
            reading_time_minutes: self.reading_time_minutes,
        }
    }
}

impl Clone for PostMetadata {
    fn clone(&self) -> (r: Self)
        ensures
            r@ == self@,
    {
        let mut tags: Vec<Tag> = Vec::new();
        let n: usize = self.tags.len();
        for i in 0..n
            invariant
                n == self.tags.len(),
                tags.len() == i,
                forall|j: int| 0 <= j < i ==> tags@[j]@ == self.tags@[j]@,
        {
            tags.push(self.tags[i].clone());
        }
        proof {
            assert(tags.deep_view() =~= self.tags.deep_view());
        }
        let seo: Option<SeoMetadata> = match &self.seo {
            Some(s) => Some(s.clone()),
            None => None,
        };
        let settings: Option<PostSettings> = match &self.settings {
            Some(s) => Some(s.clone()),
            None => None,
        };
        PostMetadata { tags, seo, settings }
    }
}

impl PartialEq for Tag {
    fn eq(&self, other: &Self) -> (r: bool)
        ensures
            r == (self@ == other@),
    {
        self.name == other.name && opt_string_eq(&self.color, &other.color)
    }
}

impl vstd::std_specs::cmp::PartialEqSpecImpl for Tag {
    open spec fn obeys_eq_spec() -> bool {
        true
    }

    open spec fn eq_spec(&self, other: &Self) -> bool {
        self@ == other@
    }
}

impl PartialEq for SeoMetadata {
    fn eq(&self, other: &Self) -> (r: bool)
        ensures
            r == (self@ == other@),
    {
        if !(opt_string_eq(&self.meta_title, &other.meta_title)
            && opt_string_eq(&self.meta_description, &other.meta_description)) {
            return false;
        }
        if self.keywords.len() != other.keywords.len() {
            proof {
                assert(self@.keywords.len() != other@.keywords.len());
            }
            return false;
        }
        let n: usize = self.keywords.len();
        for i in 0..n
            invariant
                n == self.keywords.len(),
                n == other.keywords.len(),
                forall|j: int|
                    0 <= j < i ==> self.keywords.deep_view()[j] == other.keywords.deep_view()[j],
        {
            if !(self.keywords[i] == other.keywords[i]) {
                proof {
                    assert(self@.keywords[i as int] != other@.keywords[i as int]);
                }
                return false;
            }
        }
        proof {
            assert(self@.keywords =~= other@.keywords);
        }
        true
    }
}

impl vstd::std_specs::cmp::PartialEqSpecImpl for SeoMetadata {
    open spec fn obeys_eq_spec() -> bool {
        true
    }

    open spec fn eq_spec(&self, other: &Self) -> bool {
        self@ == other@
    }
}

impl PartialEq for PostSettings {
    fn eq(&self, other: &Self) -> (r: bool)
        ensures
            r == (self@ == other@),
    {
        let minutes_eq: bool = match (&self.reading_time_minutes, &other.reading_time_minutes) {
            (None, None) => true,
            (Some(x), Some(y)) => *x == *y,
            _ => false,
        };
        self.allow_comments == other.allow_comments && self.featured == other.featured
            && minutes_eq
    }
}

impl vstd::std_specs::cmp::PartialEqSpecImpl for PostSettings {
    open spec fn obeys_eq_spec() -> bool {
        true
    }

    open spec fn eq_spec(&self, other: &Self) -> bool {
        self@ == other@
    }
}

impl PartialEq for PostMetadata {
    fn eq(&self, other: &Self) -> (r: bool)
        ensures
            r == (self@ == other@),
    {
        if self.tags.len() != other.tags.len() {
            proof {
                assert(self@.tags.len() != other@.tags.len());
            }
            return false;
        }
        let n: usize = self.tags.len();
        for i in 0..n
            invariant
                n == self.tags.len(),
                n == other.tags.len(),
                forall|j: int| 0 <= j < i ==> self.tags.deep_view()[j] == other.tags.deep_view()[j],
        {
            if !(self.tags[i] == other.tags[i]) {
                proof {
                    assert(self@.tags[i as int] != other@.tags[i as int]);
                }
                return false;
            }
        }
        proof {
            assert(self@.tags =~= other@.tags);
        }
        let seo_eq: bool = match (&self.seo, &other.seo) {
            (None, None) => true,
            (Some(a), Some(b)) => *a == *b,
            _ => false,
        };
        let settings_eq: bool = match (&self.settings, &other.settings) {
            (None, None) => true,
            (Some(a), Some(b)) => *a == *b,
            _ => false,
        };
        seo_eq && settings_eq
    }
}

impl vstd::std_specs::cmp::PartialEqSpecImpl for PostMetadata {
    open spec fn obeys_eq_spec() -> bool {
        true
    }

    open spec fn eq_spec(&self, other: &Self) -> bool {
        self@ == other@
    }
}

} // verus!
