//! Encoding of the metadata document into its stored JSON form and the
//! decoding back, with the decoder mirroring what a schema-checked read
//! accepts: required fields must be present with the right shape, optional
//! fields may be absent or null, unknown fields are ignored.

use vstd::prelude::*;

use crate::json::JsonValue;
use crate::json::JsonView;
use crate::json::arr_view;
use crate::json::obj_get;
use crate::json::obj_lookup;
use crate::json::obj_view;
use crate::metadata::MetadataView;
use crate::metadata::PostMetadata;
use crate::metadata::PostSettings;
use crate::metadata::SeoMetadata;
use crate::metadata::SeoView;
use crate::metadata::SettingsView;
use crate::metadata::Tag;
use crate::metadata::TagView;

verus! {

// ---------------------------------------------------------------------------
// Encoding: the JSON document written for each part of the metadata.
// ---------------------------------------------------------------------------
/// An optional string encodes as the string itself or as null.
pub open spec fn json_of_opt_str(s: Option<Seq<char>>) -> JsonView {
    match s {
        Some(v) => JsonView::Str(v),
        None => JsonView::Null,
    }
}

/// A tag encodes as `{"name": ..., "color": ...}`.
pub open spec fn json_of_tag(t: TagView) -> JsonView {
    JsonView::Obj(
        seq![("name"@, JsonView::Str(t.name)), ("color"@, json_of_opt_str(t.color))],
    )
}

/// A tag list encodes element by element.
pub open spec fn json_of_tags(tags: Seq<TagView>) -> Seq<JsonView> {
    Seq::new(tags.len(), |i: int| json_of_tag(tags[i]))
}

/// A keyword list encodes as an array of strings.
pub open spec fn json_of_keywords(ks: Seq<Seq<char>>) -> Seq<JsonView> {
    Seq::new(ks.len(), |i: int| JsonView::Str(ks[i]))
}

/// The SEO block encodes as
/// `{"meta_title": ..., "meta_description": ..., "keywords": [...]}`.
pub open spec fn json_of_seo(s: SeoView) -> JsonView {
    JsonView::Obj(
        seq![
            ("meta_title"@, json_of_opt_str(s.meta_title)),
            ("meta_description"@, json_of_opt_str(s.meta_description)),
            ("keywords"@, JsonView::Arr(json_of_keywords(s.keywords))),
        ],
    )
}

/// The settings block encodes as
/// `{"allow_comments": ..., "featured": ..., "reading_time_minutes": ...}`.
pub open spec fn json_of_settings(s: SettingsView) -> JsonView {
    JsonView::Obj(
        seq![
            ("allow_comments"@, JsonView::Bool(s.allow_comments)),
            ("featured"@, JsonView::Bool(s.featured)),
            (
                "reading_time_minutes"@,
                match s.reading_time_minutes {
                    Some(m) => JsonView::Int(m as int),
                    None => JsonView::Null,
                },
            ),
        ],
    )
}

/// The whole metadata document encodes as
/// `{"tags": [...], "seo": ..., "settings": ...}`.
pub open spec fn json_of_metadata(m: MetadataView) -> JsonView {
    JsonView::Obj(
        seq![
            ("tags"@, JsonView::Arr(json_of_tags(m.tags))),
            (
                "seo"@,
                match m.seo {
                    Some(s) => json_of_seo(s),
                    None => JsonView::Null,
                },
            ),
            (
                "settings"@,
                match m.settings {
                    Some(s) => json_of_settings(s),
                    None => JsonView::Null,
                },
            ),
        ],
    )
}

// ---------------------------------------------------------------------------
// Decoding: what a schema-checked read of a stored document accepts.
// ---------------------------------------------------------------------------
/// An optional string field: absent or null reads as `None`, a string as
/// `Some`, any other shape is a schema mismatch.
pub open spec fn parse_opt_str_field(f: Option<JsonView>) -> Option<Option<Seq<char>>> {
    match f {
        None => Some(None),
        Some(JsonView::Null) => Some(None),
        Some(JsonView::Str(s)) => Some(Some(s)),
        Some(_) => None,
    }
}

/// An optional bounded-integer field: absent or null reads as `None`, an
/// integer within `i32` range as `Some`, anything else is a mismatch.
pub open spec fn parse_opt_i32_field(f: Option<JsonView>) -> Option<Option<i32>> {
    match f {
        None => Some(None),
        Some(JsonView::Null) => Some(None),
        Some(JsonView::Int(i)) => if i32::MIN <= i <= i32::MAX {
            Some(Some(i as i32))
        } else {
            None
        },
        Some(_) => None,
    }
}

/// A required boolean field.
pub open spec fn parse_bool_field(f: Option<JsonView>) -> Option<bool> {
    match f {
        Some(JsonView::Bool(b)) => Some(b),
        _ => None,
    }
}

/// Decodes one tag: `name` is required, `color` optional.
pub open spec fn parse_tag(v: JsonView) -> Option<TagView> {
    match v {
        JsonView::Obj(pairs) => match obj_get(pairs, "name"@) {
            Some(JsonView::Str(n)) => match parse_opt_str_field(obj_get(pairs, "color"@)) {
                Some(c) => Some(TagView { name: n, color: c }),
                None => None,
            },
            _ => None,
        },
        _ => None,
    }
}

/// Decodes a tag list; any ill-shaped element rejects the whole list.
pub open spec fn parse_tags(items: Seq<JsonView>) -> Option<Seq<TagView>>
    decreases items.len(),
{
    if items.len() == 0 {
        Some(Seq::empty())
    } else {
        match parse_tags(items.drop_last()) {
            Some(init) => match parse_tag(items.last()) {
                Some(t) => Some(init.push(t)),
                None => None,
            },
            None => None,
        }
    }
}

/// Decodes a keyword list; every element must be a string.
pub open spec fn parse_keywords(items: Seq<JsonView>) -> Option<Seq<Seq<char>>>
    decreases items.len(),
{
    if items.len() == 0 {
        Some(Seq::empty())
    } else {
        match parse_keywords(items.drop_last()) {
            Some(init) => match items.last() {
                JsonView::Str(s) => Some(init.push(s)),
                _ => None,
            },
            None => None,
        }
    }
}

/// Decodes the SEO block: the optional strings may be absent, the keyword
/// array is required.
pub open spec fn parse_seo(v: JsonView) -> Option<SeoView> {
    match v {
        JsonView::Obj(pairs) => match parse_opt_str_field(obj_get(pairs, "meta_title"@)) {
            Some(mt) => match parse_opt_str_field(obj_get(pairs, "meta_description"@)) {
                Some(md) => match obj_get(pairs, "keywords"@) {
                    Some(JsonView::Arr(items)) => match parse_keywords(items) {
                        Some(ks) => Some(
                            SeoView { meta_title: mt, meta_description: md, keywords: ks },
                        ),
                        None => None,
                    },
                    _ => None,
                },
                None => None,
            },
            None => None,
        },
        _ => None,
    }
}

/// Decodes the settings block: the booleans are required, the reading time
/// optional.
pub open spec fn parse_settings(v: JsonView) -> Option<SettingsView> {
    match v {
        JsonView::Obj(pairs) => match parse_bool_field(obj_get(pairs, "allow_comments"@)) {
            Some(ac) => match parse_bool_field(obj_get(pairs, "featured"@)) {
                Some(fe) => match parse_opt_i32_field(obj_get(pairs, "reading_time_minutes"@)) {
                    Some(rt) => Some(
                        SettingsView {
                            allow_comments: ac,
                            featured: fe,
                            reading_time_minutes: rt,
                        },
                    ),
                    None => None,
                },
                None => None,
            },
            None => None,
        },
        _ => None,
    }
}

/// An optional SEO field: absent or null reads as `None`.
pub open spec fn parse_seo_field(f: Option<JsonView>) -> Option<Option<SeoView>> {
    match f {
        None => Some(None),
        Some(JsonView::Null) => Some(None),
        Some(v) => match parse_seo(v) {
            Some(s) => Some(Some(s)),
            None => None,
        },
    }
}

/// An optional settings field: absent or null reads as `None`.
pub open spec fn parse_settings_field(f: Option<JsonView>) -> Option<Option<SettingsView>> {
    match f {
        None => Some(None),
        Some(JsonView::Null) => Some(None),
        Some(v) => match parse_settings(v) {
            Some(s) => Some(Some(s)),
            None => None,
        },
    }
}

/// Decodes a whole metadata document: the tag array is required, the SEO and
/// settings blocks optional.
pub open spec fn parse_metadata(v: JsonView) -> Option<MetadataView> {
    match v {
        JsonView::Obj(pairs) => match obj_get(pairs, "tags"@) {
            Some(JsonView::Arr(items)) => match parse_tags(items) {
                Some(tags) => match parse_seo_field(obj_get(pairs, "seo"@)) {
                    Some(seo) => match parse_settings_field(obj_get(pairs, "settings"@)) {
                        Some(settings) => Some(MetadataView { tags, seo, settings }),
                        None => None,
                    },
                    None => None,
                },
                None => None,
            },
            _ => None,
        },
        _ => None,
    }
}

// ---------------------------------------------------------------------------
// Executable encoder.
// ---------------------------------------------------------------------------
/// Encodes an optional string field value.
fn opt_str_to_json(s: &Option<String>) -> (r: JsonValue)
    ensures
        r@ == json_of_opt_str(s.deep_view()),
{
    match s {
        Some(v) => JsonValue::Str(v.clone()),
        None => JsonValue::Null,
    }
}

impl Tag {
    /// Encodes this tag as its stored JSON object.
    pub fn to_json(&self) -> (r: JsonValue)
        ensures
            r@ == json_of_tag(self@),
    {
        let mut pairs: Vec<(String, JsonValue)> = Vec::new();
        pairs.push(("name".to_owned(), JsonValue::Str(self.name.clone())));
        pairs.push(("color".to_owned(), opt_str_to_json(&self.color)));
        let r = JsonValue::Obj(pairs);
        proof {
            assert(obj_view(r->Obj_0@) =~= json_of_tag(self@)->Obj_0);
        }
        r
    }
}

impl SeoMetadata {
    /// Encodes this SEO block as its stored JSON object.
    pub fn to_json(&self) -> (r: JsonValue)
        ensures
            r@ == json_of_seo(self@),
    {
        let mut words: Vec<JsonValue> = Vec::new();
        let n: usize = self.keywords.len();
        for i in 0..n
            invariant
                n == self.keywords.len(),
                words.len() == i,
                forall|j: int| 0 <= j < i ==> words@[j]@ == JsonView::Str(self.keywords@[j]@),
        {
            words.push(JsonValue::Str(self.keywords[i].clone()));
        }
        proof {
            assert(arr_view(words@) =~= json_of_keywords(self@.keywords));
        }
        let mut pairs: Vec<(String, JsonValue)> = Vec::new();
        pairs.push(("meta_title".to_owned(), opt_str_to_json(&self.meta_title)));
        pairs.push(("meta_description".to_owned(), opt_str_to_json(&self.meta_description)));
        pairs.push(("keywords".to_owned(), JsonValue::Arr(words)));
        let r = JsonValue::Obj(pairs);
        proof {
            assert(obj_view(r->Obj_0@) =~= json_of_seo(self@)->Obj_0);
        }
        r
    }
}

impl PostSettings {
    /// Encodes this settings block as its stored JSON object.
    pub fn to_json(&self) -> (r: JsonValue)
        ensures
            r@ == json_of_settings(self@),
    {
        let minutes: JsonValue = match &self.reading_time_minutes {
            Some(m) => JsonValue::Int(*m as i64),
            None => JsonValue::Null,
        };
        let mut pairs: Vec<(String, JsonValue)> = Vec::new();
        pairs.push(("allow_comments".to_owned(), JsonValue::Bool(self.allow_comments)));
        pairs.push(("featured".to_owned(), JsonValue::Bool(self.featured)));
        pairs.push(("reading_time_minutes".to_owned(), minutes));
        let r = JsonValue::Obj(pairs);
        proof {
            assert(obj_view(r->Obj_0@) =~= json_of_settings(self@)->Obj_0);
        }
        r
    }
}

impl PostMetadata {
    /// Encodes this document as the JSON value stored on the post row.
    pub fn to_json(&self) -> (r: JsonValue)
        ensures
            r@ == json_of_metadata(self@),
    {
        let mut tag_items: Vec<JsonValue> = Vec::new();
        let n: usize = self.tags.len();
        for i in 0..n
            invariant
                n == self.tags.len(),
                tag_items.len() == i,
                forall|j: int| 0 <= j < i ==> tag_items@[j]@ == json_of_tag(self.tags@[j]@),
        {
            tag_items.push(self.tags[i].to_json());
        }
        proof {
            assert(arr_view(tag_items@) =~= json_of_tags(self@.tags));
        }
        let seo: JsonValue = match &self.seo {
            Some(s) => s.to_json(),
            None => JsonValue::Null,
        };
        let settings: JsonValue = match &self.settings {
            Some(s) => s.to_json(),
            None => JsonValue::Null,
        };
        let mut pairs: Vec<(String, JsonValue)> = Vec::new();
        pairs.push(("tags".to_owned(), JsonValue::Arr(tag_items)));
        pairs.push(("seo".to_owned(), seo));
        pairs.push(("settings".to_owned(), settings));
        let r = JsonValue::Obj(pairs);
        proof {
            assert(obj_view(r->Obj_0@) =~= json_of_metadata(self@)->Obj_0);
        }
        r
    }
}

// ---------------------------------------------------------------------------
// Executable decoder.
// ---------------------------------------------------------------------------
/// Decodes an optional string field already looked up in an object.
fn opt_str_from_field(f: Option<&JsonValue>) -> (r: Option<Option<String>>)
    ensures
        match r {
            Some(s) => parse_opt_str_field(spec_field(f)) == Some(s.deep_view()),
            None => parse_opt_str_field(spec_field(f)) is None,
        },
{
    match f {
        None => Some(None),
        Some(JsonValue::Null) => Some(None),
        Some(JsonValue::Str(s)) => Some(Some(s.clone())),
        Some(_) => None,
    }
}

/// View of a looked-up field.
pub open spec fn spec_field(f: Option<&JsonValue>) -> Option<JsonView> {
    match f {
        Some(v) => Some(v@),
        None => None,
    }
}

impl Tag {
    /// Decodes a tag from its stored JSON object.
    pub fn from_json(v: &JsonValue) -> (r: Option<Tag>)
        ensures
            match r {
                Some(t) => parse_tag(v@) == Some(t@),
                None => parse_tag(v@) is None,
            },
    {
        let pairs = match v {
            JsonValue::Obj(p) => p,
            _ => { return None; },
        };
        let name_key: String = "name".to_owned();
        let name: String = match obj_lookup(pairs, &name_key) {
            Some(JsonValue::Str(s)) => s.clone(),
            _ => { return None; },
        };
        let color_key: String = "color".to_owned();
        let color: Option<String> = match opt_str_from_field(obj_lookup(pairs, &color_key)) {
            Some(c) => c,
            None => { return None; },
        };
        Some(Tag { name, color })
    }
}

impl SeoMetadata {
    /// Decodes an SEO block from its stored JSON object.
    pub fn from_json(v: &JsonValue) -> (r: Option<SeoMetadata>)
        ensures
            match r {
                Some(s) => parse_seo(v@) == Some(s@),
                None => parse_seo(v@) is None,
            },
    {
        let pairs = match v {
            JsonValue::Obj(p) => p,
            _ => { return None; },
        };
        let title_key: String = "meta_title".to_owned();
        let meta_title: Option<String> = match opt_str_from_field(obj_lookup(pairs, &title_key)) {
            Some(c) => c,
            None => { return None; },
        };
        let desc_key: String = "meta_description".to_owned();
        let meta_description: Option<String> = match opt_str_from_field(
            obj_lookup(pairs, &desc_key),
        ) {
            Some(c) => c,
            None => { return None; },
        };
        let kw_key: String = "keywords".to_owned();
        let words = match obj_lookup(pairs, &kw_key) {
            Some(JsonValue::Arr(items)) => items,
            _ => { return None; },
        };
        let keywords: Vec<String> = match keywords_from_json(words) {
            Some(ks) => ks,
            None => { return None; },
        };
        Some(SeoMetadata { meta_title, meta_description, keywords })
    }
}

/// Decodes a keyword array; every element must be a string.
fn keywords_from_json(items: &Vec<JsonValue>) -> (r: Option<Vec<String>>)
    ensures
        match r {
            Some(ks) => parse_keywords(arr_view(items@)) == Some(ks.deep_view()),
            None => parse_keywords(arr_view(items@)) is None,
        },
{
    let ghost all = arr_view(items@);
    let mut ks: Vec<String> = Vec::new();
    let n: usize = items.len();
    for i in 0..n
        invariant
            n == items.len(),
            all == arr_view(items@),
            all.len() == items@.len(),
            ks.len() == i,
            forall|j: int| 0 <= j < i ==> all[j] is Str && all[j] == JsonView::Str(ks@[j]@),
    {
        match &items[i] {
            JsonValue::Str(s) => {
                ks.push(s.clone());
            },
            _ => {
                proof {
                    lemma_parse_keywords_shape(all);
                    assert(!(all[i as int] is Str));
                }
                return None;
            },
        }
    }
    proof {
        lemma_parse_keywords_shape(all);
        assert(ks.deep_view() =~= Seq::new(all.len(), |i: int| all[i]->Str_0));
    }
    Some(ks)
}

impl PostSettings {
    /// Decodes a settings block from its stored JSON object.
    pub fn from_json(v: &JsonValue) -> (r: Option<PostSettings>)
        ensures
            match r {
                Some(s) => parse_settings(v@) == Some(s@),
                None => parse_settings(v@) is None,
            },
    {
        let pairs = match v {
            JsonValue::Obj(p) => p,
            _ => { return None; },
        };
        let ac_key: String = "allow_comments".to_owned();
        let allow_comments: bool = match obj_lookup(pairs, &ac_key) {
            Some(JsonValue::Bool(b)) => *b,
            _ => { return None; },
        };
        let fe_key: String = "featured".to_owned();
        let featured: bool = match obj_lookup(pairs, &fe_key) {
            Some(JsonValue::Bool(b)) => *b,
            _ => { return None; },
        };
        let rt_key: String = "reading_time_minutes".to_owned();
        let reading_time_minutes: Option<i32> = match obj_lookup(pairs, &rt_key) {
            None => None,
            Some(JsonValue::Null) => None,
            Some(JsonValue::Int(i)) => {
                if *i >= i32::MIN as i64 && *i <= i32::MAX as i64 {
                    Some(*i as i32)
                } else {
                    return None;
                }
            },
            Some(_) => { return None; },
        };
        Some(PostSettings { allow_comments, featured, reading_time_minutes })
    }
}

/// Decodes a tag array; any ill-shaped element rejects the list.
fn tags_from_json(items: &Vec<JsonValue>) -> (r: Option<Vec<Tag>>)
    ensures
        match r {
            Some(ts) => parse_tags(arr_view(items@)) == Some(ts.deep_view()),
            None => parse_tags(arr_view(items@)) is None,
        },
{
    let ghost all = arr_view(items@);
    let mut ts: Vec<Tag> = Vec::new();
    let n: usize = items.len();
    for i in 0..n
        invariant
            n == items.len(),
            all == arr_view(items@),
            all.len() == items@.len(),
            ts.len() == i,
            forall|j: int| 0 <= j < i ==> parse_tag(all[j]) == Some(ts@[j]@),
    {
        match Tag::from_json(&items[i]) {
            Some(t) => {
                ts.push(t);
            },
            None => {
                proof {
                    lemma_parse_tags_shape(all);
                    assert(parse_tag(all[i as int]) is None);
                }
                return None;
            },
        }
    }
    proof {
        lemma_parse_tags_shape(all);
        assert(ts.deep_view() =~= Seq::new(all.len(), |i: int| parse_tag(all[i])->Some_0));
    }
    Some(ts)
}

impl PostMetadata {
    /// Decodes a whole metadata document from its stored JSON value.
    pub fn from_json(v: &JsonValue) -> (r: Option<PostMetadata>)
        ensures
            match r {
                Some(m) => parse_metadata(v@) == Some(m@),
                None => parse_metadata(v@) is None,
            },
    {
        let pairs = match v {
            JsonValue::Obj(p) => p,
            _ => { return None; },
        };
        let tags_key: String = "tags".to_owned();
        let tag_items = match obj_lookup(pairs, &tags_key) {
            Some(JsonValue::Arr(items)) => items,
            _ => { return None; },
        };
        let tags: Vec<Tag> = match tags_from_json(tag_items) {
            Some(ts) => ts,
            None => { return None; },
        };
        let seo_key: String = "seo".to_owned();
        let seo: Option<SeoMetadata> = match obj_lookup(pairs, &seo_key) {
            None => None,
            Some(JsonValue::Null) => None,
            Some(sv) => match SeoMetadata::from_json(sv) {
                Some(s) => Some(s),
                None => { return None; },
            },
        };
        let settings_key: String = "settings".to_owned();
        let settings: Option<PostSettings> = match obj_lookup(pairs, &settings_key) {
            None => None,
            Some(JsonValue::Null) => None,
            Some(sv) => match PostSettings::from_json(sv) {
                Some(s) => Some(s),
                None => { return None; },
            },
        };
        Some(PostMetadata { tags, seo, settings })
    }

    /// Decodes a stored document, falling back to the default document when
    /// the stored value does not match the schema.
    pub fn from_json_or_default(v: &JsonValue) -> (r: PostMetadata)
        ensures
            match parse_metadata(v@) {
                Some(m) => r@ == m,
                None => r@ == MetadataView::default_value(),
            },
    {
        match PostMetadata::from_json(v) {
            Some(m) => m,
            None => PostMetadata::default(),
        }
    }
}

// ---------------------------------------------------------------------------
// Shape lemmas for the element-wise decoders.
// ---------------------------------------------------------------------------
/// `parse_keywords` succeeds exactly when every element is a string, and then
/// returns the strings in order.
proof fn lemma_parse_keywords_shape(items: Seq<JsonView>)
    ensures
        (forall|i: int| 0 <= i < items.len() ==> items[i] is Str) ==> parse_keywords(items)
            == Some(Seq::new(items.len(), |i: int| items[i]->Str_0)),
        (exists|i: int| 0 <= i < items.len() && !(items[i] is Str)) ==> parse_keywords(items)
            is None,
    decreases items.len(),
{
    if items.len() > 0 {
        lemma_parse_keywords_shape(items.drop_last());
        if forall|i: int| 0 <= i < items.len() ==> items[i] is Str {
            assert(forall|i: int|
                0 <= i < items.drop_last().len() ==> items.drop_last()[i] is Str);
            assert(parse_keywords(items) == Some(
                Seq::new(items.drop_last().len(), |i: int| items.drop_last()[i]->Str_0).push(
                    items.last()->Str_0,
                ),
            ));
            assert(Seq::new(items.drop_last().len(), |i: int| items.drop_last()[i]->Str_0).push(
                items.last()->Str_0,
            ) =~= Seq::new(items.len(), |i: int| items[i]->Str_0));
        } else {
            let i = choose|i: int| 0 <= i < items.len() && !(items[i] is Str);
            if i == items.len() - 1 {
                assert(!(items.last() is Str));
            } else {
                assert(items.drop_last()[i] == items[i]);
            }
        }
    }
}

/// `parse_tags` succeeds exactly when every element decodes as a tag, and
/// then returns the decoded tags in order.
proof fn lemma_parse_tags_shape(items: Seq<JsonView>)
    ensures
        (forall|i: int| 0 <= i < items.len() ==> parse_tag(#[trigger] items[i]) is Some)
            ==> parse_tags(items) == Some(
            Seq::new(items.len(), |i: int| parse_tag(items[i])->Some_0),
        ),
        (exists|i: int| 0 <= i < items.len() && parse_tag(#[trigger] items[i]) is None)
            ==> parse_tags(items) is None,
    decreases items.len(),
{
    if items.len() > 0 {
        lemma_parse_tags_shape(items.drop_last());
        if forall|i: int| 0 <= i < items.len() ==> parse_tag(#[trigger] items[i]) is Some {
            assert(forall|i: int|
                0 <= i < items.drop_last().len() ==> parse_tag(
                    #[trigger] items.drop_last()[i],
                ) is Some);
            assert(parse_tags(items) == Some(
                Seq::new(
                    items.drop_last().len(),
                    |i: int| parse_tag(items.drop_last()[i])->Some_0,
                ).push(parse_tag(items.last())->Some_0),
            ));
            assert(Seq::new(
                items.drop_last().len(),
                |i: int| parse_tag(items.drop_last()[i])->Some_0,
            ).push(parse_tag(items.last())->Some_0) =~= Seq::new(
                items.len(),
                |i: int| parse_tag(items[i])->Some_0,
            ));
        } else {
            let i = choose|i: int|
                0 <= i < items.len() && parse_tag(#[trigger] items[i]) is None;
            if i == items.len() - 1 {
                assert(parse_tag(items.last()) is None);
            } else {
                assert(items.drop_last()[i] == items[i]);
            }
        }
    }
}

// ---------------------------------------------------------------------------
// Round trip: decoding an encoded document restores it exactly.
// ---------------------------------------------------------------------------
/// Field lookup in a two-field object with distinct keys.
proof fn lemma_obj_get2(a: (Seq<char>, JsonView), b: (Seq<char>, JsonView))
    requires
        a.0 != b.0,
    ensures
        obj_get(seq![a, b], a.0) == Some(a.1),
        obj_get(seq![a, b], b.0) == Some(b.1),
{
    let s = seq![a, b];
    assert(s.subrange(1, 2) =~= seq![b]);
    assert(obj_get(s, a.0) == Some(a.1));
    assert(obj_get(s, b.0) == obj_get(seq![b], b.0));
    assert(obj_get(seq![b], b.0) == Some(b.1));
}

/// Field lookup in a three-field object with distinct keys.
proof fn lemma_obj_get3(a: (Seq<char>, JsonView), b: (Seq<char>, JsonView), c: (
    Seq<char>,
    JsonView,
))
    requires
        a.0 != b.0,
        a.0 != c.0,
        b.0 != c.0,
    ensures
        obj_get(seq![a, b, c], a.0) == Some(a.1),
        obj_get(seq![a, b, c], b.0) == Some(b.1),
        obj_get(seq![a, b, c], c.0) == Some(c.1),
{
    let s = seq![a, b, c];
    assert(s.subrange(1, 3) =~= seq![b, c]);
    assert(seq![b, c].subrange(1, 2) =~= seq![c]);
    assert(obj_get(s, a.0) == Some(a.1));
    assert(obj_get(s, b.0) == obj_get(seq![b, c], b.0));
    assert(obj_get(seq![b, c], b.0) == Some(b.1));
    assert(obj_get(s, c.0) == obj_get(seq![b, c], c.0));
    assert(obj_get(seq![b, c], c.0) == obj_get(seq![c], c.0));
    assert(obj_get(seq![c], c.0) == Some(c.1));
}

/// Decoding an encoded tag restores it.
proof fn lemma_tag_round_trip(t: TagView)
    ensures
        parse_tag(json_of_tag(t)) == Some(t),
{
    reveal_strlit("name");
    reveal_strlit("color");
    assert("name"@.len() == 4);
    assert("color"@.len() == 5);
    lemma_obj_get2(("name"@, JsonView::Str(t.name)), ("color"@, json_of_opt_str(t.color)));
}

/// Decoding an encoded tag list restores it.
proof fn lemma_tags_round_trip(tags: Seq<TagView>)
    ensures
        parse_tags(json_of_tags(tags)) == Some(tags),
    decreases tags.len(),
{
    let enc = json_of_tags(tags);
    if tags.len() == 0 {
        assert(enc.len() == 0);
    } else {
        lemma_tags_round_trip(tags.drop_last());
        lemma_tag_round_trip(tags.last());
        assert(enc.drop_last() =~= json_of_tags(tags.drop_last()));
        assert(enc.last() == json_of_tag(tags.last()));
        assert(tags.drop_last().push(tags.last()) =~= tags);
    }
}

/// Decoding an encoded keyword list restores it.
proof fn lemma_keywords_round_trip(ks: Seq<Seq<char>>)
    ensures
        parse_keywords(json_of_keywords(ks)) == Some(ks),
    decreases ks.len(),
{
    let enc = json_of_keywords(ks);
    if ks.len() == 0 {
        assert(enc.len() == 0);
    } else {
        lemma_keywords_round_trip(ks.drop_last());
        assert(enc.drop_last() =~= json_of_keywords(ks.drop_last()));
        assert(enc.last() == JsonView::Str(ks.last()));
        assert(ks.drop_last().push(ks.last()) =~= ks);
    }
}

/// Decoding an encoded SEO block restores it.
proof fn lemma_seo_round_trip(s: SeoView)
    ensures
        parse_seo(json_of_seo(s)) == Some(s),
{
    reveal_strlit("meta_title");
    reveal_strlit("meta_description");
    reveal_strlit("keywords");
    assert("meta_title"@.len() == 10);
    assert("meta_description"@.len() == 16);
    assert("keywords"@.len() == 8);
    lemma_obj_get3(
        ("meta_title"@, json_of_opt_str(s.meta_title)),
        ("meta_description"@, json_of_opt_str(s.meta_description)),
        ("keywords"@, JsonView::Arr(json_of_keywords(s.keywords))),
    );
    lemma_keywords_round_trip(s.keywords);
}

/// Decoding an encoded settings block restores it.
proof fn lemma_settings_round_trip(s: SettingsView)
    ensures
        parse_settings(json_of_settings(s)) == Some(s),
{
    reveal_strlit("allow_comments");
    reveal_strlit("featured");
    reveal_strlit("reading_time_minutes");
    assert("allow_comments"@.len() == 14);
    assert("featured"@.len() == 8);
    assert("reading_time_minutes"@.len() == 20);
    let minutes = match s.reading_time_minutes {
        Some(m) => JsonView::Int(m as int),
        None => JsonView::Null,
    };
    lemma_obj_get3(
        ("allow_comments"@, JsonView::Bool(s.allow_comments)),
        ("featured"@, JsonView::Bool(s.featured)),
        ("reading_time_minutes"@, minutes),
    );
    let pairs = json_of_settings(s)->Obj_0;
    assert(pairs =~= seq![
        ("allow_comments"@, JsonView::Bool(s.allow_comments)),
        ("featured"@, JsonView::Bool(s.featured)),
        ("reading_time_minutes"@, minutes),
    ]);
    assert(parse_bool_field(obj_get(pairs, "allow_comments"@)) == Some(s.allow_comments));
    assert(parse_bool_field(obj_get(pairs, "featured"@)) == Some(s.featured));
    assert(obj_get(pairs, "reading_time_minutes"@) == Some(minutes));
    assert(parse_opt_i32_field(Some(minutes)) == Some(s.reading_time_minutes));
}

/// Round trip of the stored document: decoding what was encoded restores the
/// document exactly, for every metadata document.
pub proof fn lemma_metadata_round_trip(m: MetadataView)
    ensures
        parse_metadata(json_of_metadata(m)) == Some(m),
{
    reveal_strlit("tags");
    reveal_strlit("seo");
    reveal_strlit("settings");
    assert("tags"@.len() == 4);
    assert("seo"@.len() == 3);
    assert("settings"@.len() == 8);
    let seo_enc = match m.seo {
        Some(s) => json_of_seo(s),
        None => JsonView::Null,
    };
    let settings_enc = match m.settings {
        Some(s) => json_of_settings(s),
        None => JsonView::Null,
    };
    lemma_obj_get3(
        ("tags"@, JsonView::Arr(json_of_tags(m.tags))),
        ("seo"@, seo_enc),
        ("settings"@, settings_enc),
    );
    lemma_tags_round_trip(m.tags);
    let pairs = json_of_metadata(m)->Obj_0;
    assert(pairs =~= seq![
        ("tags"@, JsonView::Arr(json_of_tags(m.tags))),
        ("seo"@, seo_enc),
        ("settings"@, settings_enc),
    ]);
    assert(obj_get(pairs, "tags"@) == Some(JsonView::Arr(json_of_tags(m.tags))));
    assert(obj_get(pairs, "seo"@) == Some(seo_enc));
    assert(obj_get(pairs, "settings"@) == Some(settings_enc));
    match m.seo {
        Some(s) => {
            lemma_seo_round_trip(s);
            assert(!(json_of_seo(s) is Null));
        },
        None => {},
    }
    assert(parse_seo_field(Some(seo_enc)) == Some(m.seo));
    match m.settings {
        Some(s) => {
            lemma_settings_round_trip(s);
            assert(!(json_of_settings(s) is Null));
        },
        None => {},
    }
    assert(parse_settings_field(Some(settings_enc)) == Some(m.settings));
}

} // verus!
