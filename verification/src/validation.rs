//! The validation cascade: every rule of the inbound request bodies, checked
//! recursively through the nested metadata document, collecting all field
//! violations before a request is rejected.

use vstd::prelude::*;

use crate::dto_post::CreatePostDto;
use crate::dto_post::CreatePostMetadataDto;
use crate::dto_post::CreatePostSettingsDto;
use crate::dto_post::CreatePostView;
use crate::dto_post::CreateSeoMetadataDto;
use crate::dto_post::CreateTagDto;
use crate::dto_post::MetadataDtoView;
use crate::dto_post::SeoDtoView;
use crate::dto_post::UpdatePostDto;
use crate::dto_post::UpdatePostView;
use crate::dto_user::CreateUserDto;
use crate::dto_user::CreateUserView;
use crate::dto_user::UpdateUserDto;
use crate::dto_user::UpdateUserView;
use crate::metadata::SettingsView;
use crate::metadata::TagView;
use vstd::string::StrSliceExecFns;
use vstd::string::StringExecFns;

verus! {

// ---------------------------------------------------------------------------
// Decimal rendering of indices, used in the field paths of nested violations.
// ---------------------------------------------------------------------------
/// The decimal digit character of `d`.
pub open spec fn digit_char(d: nat) -> char {
    if d == 0 {
        '0'
    } else if d == 1 {
        '1'
    } else if d == 2 {
        '2'
    } else if d == 3 {
        '3'
    } else if d == 4 {
        '4'
    } else if d == 5 {
        '5'
    } else if d == 6 {
        '6'
    } else if d == 7 {
        '7'
    } else if d == 8 {
        '8'
    } else {
        '9'
    }
}

/// The decimal rendering of `n`, most significant digit first.
pub open spec fn dec_digits(n: nat) -> Seq<char>
    decreases n,
{
    if n < 10 {
        seq![digit_char(n)]
    } else {
        dec_digits(n / 10) + seq![digit_char(n % 10)]
    }
}

/// The one-character string of a decimal digit.
fn digit_str(d: u64) -> (r: &'static str)
    requires
        d < 10,
    ensures
        r@ == seq![digit_char(d as nat)],
{
    if d == 0 {
        proof {
            reveal_strlit("0");
            assert("0"@ =~= seq!['0']);
        }
        "0"
    } else if d == 1 {
        proof {
            reveal_strlit("1");
            assert("1"@ =~= seq!['1']);
        }
        "1"
    } else if d == 2 {
        proof {
            reveal_strlit("2");
            assert("2"@ =~= seq!['2']);
        }
        "2"
    } else if d == 3 {
        proof {
            reveal_strlit("3");
            assert("3"@ =~= seq!['3']);
        }
        "3"
    } else if d == 4 {
        proof {
            reveal_strlit("4");
            assert("4"@ =~= seq!['4']);
        }
        "4"
    } else if d == 5 {
        proof {
            reveal_strlit("5");
            assert("5"@ =~= seq!['5']);
        }
        "5"
    } else if d == 6 {
        proof {
            reveal_strlit("6");
            assert("6"@ =~= seq!['6']);
        }
        "6"
    } else if d == 7 {
        proof {
            reveal_strlit("7");
            assert("7"@ =~= seq!['7']);
        }
        "7"
    } else if d == 8 {
        proof {
            reveal_strlit("8");
            assert("8"@ =~= seq!['8']);
        }
        "8"
    } else {
        proof {
            reveal_strlit("9");
            assert("9"@ =~= seq!['9']);
        }
        "9"
    }
}

/// Renders `n` in decimal.
pub fn u64_to_dec(n: u64) -> (r: String)
    ensures
        r@ == dec_digits(n as nat),
    decreases n,
{
    if n < 10 {
        digit_str(n).to_owned()
    } else {
        let head = u64_to_dec(n / 10);
        head.concat(digit_str(n % 10))
    }
}

// ---------------------------------------------------------------------------
// Violations.
// ---------------------------------------------------------------------------
/// One field violation: a dotted field path and a human-readable message.
#[derive(Debug)]
pub struct Violation {
    pub field: String,
    pub message: String,
}

/// Mathematical view of a [`Violation`].
#[verifier::ext_equal]
pub ghost struct ViolationView {
    pub field: Seq<char>,
    pub message: Seq<char>,
}

impl View for Violation {
    type V = ViolationView;

    open spec fn view(&self) -> ViolationView {
        ViolationView { field: self.field@, message: self.message@ }
    }
}

impl DeepView for Violation {
    type V = ViolationView;

    open spec fn deep_view(&self) -> ViolationView {
        self.view()
    }
}

/// Shorthand for a violation view.
pub open spec fn violation(field: Seq<char>, message: Seq<char>) -> ViolationView {
    ViolationView { field, message }
}

// ---------------------------------------------------------------------------
// The rules, level by level: what is valid, and which violations an invalid
// value yields, in declaration order of the fields.
// ---------------------------------------------------------------------------
/// A tag is valid when its name has 1 to 50 characters and its colour, if
/// given, at most 7.
pub open spec fn valid_tag(t: TagView) -> bool {
    &&& 1 <= t.name.len() <= 50
    &&& match t.color {
        Some(c) => c.len() <= 7,
        None => true,
    }
}

/// The violations of one tag, under the given field path.
pub open spec fn tag_violations(t: TagView, path: Seq<char>) -> Seq<ViolationView> {
    (if 1 <= t.name.len() <= 50 {
        Seq::empty()
    } else {
        seq![violation(path + ".name"@, "Le nom du tag doit faire entre 1 et 50 caract\u{e8}res"@)]
    }) + (match t.color {
        Some(c) => if c.len() <= 7 {
            Seq::empty()
        } else {
            seq![violation(path + ".color"@, "La couleur doit \u{ea}tre un code hex (ex: #FF0000)"@)]
        },
        None => Seq::empty(),
    })
}

/// The field path of the tag at index `i`.
pub open spec fn tag_path(i: int) -> Seq<char> {
    "metadata.tags["@ + dec_digits(i as nat) + "]"@
}

/// The violations of the first `k` tags of a list.
pub open spec fn tags_violations(tags: Seq<TagView>, k: int) -> Seq<ViolationView>
    decreases k,
{
    if k <= 0 {
        Seq::empty()
    } else {
        tags_violations(tags, k - 1) + tag_violations(tags[k - 1], tag_path(k - 1))
    }
}

/// An SEO block is valid when its title has at most 70 characters, its
/// description at most 160, and its keyword list at most 10 entries.
pub open spec fn valid_seo_dto(s: SeoDtoView) -> bool {
    &&& match s.meta_title {
        Some(t) => t.len() <= 70,
        None => true,
    }
    &&& match s.meta_description {
        Some(d) => d.len() <= 160,
        None => true,
    }
    &&& match s.keywords {
        Some(ks) => ks.len() <= 10,
        None => true,
    }
}

/// The violations of an SEO block.
pub open spec fn seo_violations(s: SeoDtoView) -> Seq<ViolationView> {
    (match s.meta_title {
        Some(t) => if t.len() <= 70 {
            Seq::empty()
        } else {
            seq![
                violation(
                    "metadata.seo.meta_title"@,
                    "Le meta title ne doit pas d\u{e9}passer 70 caract\u{e8}res"@,
                ),
            ]
        },
        None => Seq::empty(),
    }) + (match s.meta_description {
        Some(d) => if d.len() <= 160 {
            Seq::empty()
        } else {
            seq![
                violation(
                    "metadata.seo.meta_description"@,
                    "La meta description ne doit pas d\u{e9}passer 160 caract\u{e8}res"@,
                ),
            ]
        },
        None => Seq::empty(),
    }) + (match s.keywords {
        Some(ks) => if ks.len() <= 10 {
            Seq::empty()
        } else {
            seq![violation("metadata.seo.keywords"@, "Maximum 10 keywords autoris\u{e9}s"@)]
        },
        None => Seq::empty(),
    })
}

/// A settings block is valid when its reading time, if given, lies in 1 to
/// 60 minutes.
pub open spec fn valid_settings_dto(s: SettingsView) -> bool {
    match s.reading_time_minutes {
        Some(m) => 1 <= m <= 60,
        None => true,
    }
}

/// The violations of a settings block.
pub open spec fn settings_violations(s: SettingsView) -> Seq<ViolationView> {
    match s.reading_time_minutes {
        Some(m) => if 1 <= m <= 60 {
            Seq::empty()
        } else {
            seq![
                violation(
                    "metadata.settings.reading_time_minutes"@,
                    "Le temps de lecture doit \u{ea}tre entre 1 et 60 minutes"@,
                ),
            ]
        },
        None => Seq::empty(),
    }
}

/// An inbound metadata document is valid when its tag list, if given, has at
/// most 10 entries, all valid, and its SEO and settings blocks, if given,
/// are valid.
pub open spec fn valid_metadata_dto(m: MetadataDtoView) -> bool {
    &&& match m.tags {
        Some(ts) => ts.len() <= 10 && forall|i: int| 0 <= i < ts.len() ==> valid_tag(#[trigger] ts[i]),
        None => true,
    }
    &&& match m.seo {
        Some(s) => valid_seo_dto(s),
        None => true,
    }
    &&& match m.settings {
        Some(s) => valid_settings_dto(s),
        None => true,
    }
}

/// The violations of an inbound metadata document.
pub open spec fn metadata_violations(m: MetadataDtoView) -> Seq<ViolationView> {
    (match m.tags {
        Some(ts) => (if ts.len() <= 10 {
            Seq::empty()
        } else {
            seq![violation("metadata.tags"@, "Maximum 10 tags autoris\u{e9}s"@)]
        }) + tags_violations(ts, ts.len() as int),
        None => Seq::empty(),
    }) + (match m.seo {
        Some(s) => seo_violations(s),
        None => Seq::empty(),
    }) + (match m.settings {
        Some(s) => settings_violations(s),
        None => Seq::empty(),
    })
}

/// A post-creation body is valid when the title has 3 to 255 characters, the
/// content at least 10, the author reference is positive, and the metadata
/// document, if given, is valid.
pub open spec fn valid_create_post(p: CreatePostView) -> bool {
    &&& 3 <= p.title.len() <= 255
    &&& p.content.len() >= 10
    &&& p.author_id >= 1
    &&& match p.metadata {
        Some(m) => valid_metadata_dto(m),
        None => true,
    }
}

/// The violations of a post-creation body.
pub open spec fn create_post_violations(p: CreatePostView) -> Seq<ViolationView> {
    (if 3 <= p.title.len() <= 255 {
        Seq::empty()
    } else {
        seq![violation("title"@, "Le titre doit faire entre 3 et 255 caract\u{e8}res"@)]
    }) + (if p.content.len() >= 10 {
        Seq::empty()
    } else {
        seq![violation("content"@, "Le contenu doit faire au moins 10 caract\u{e8}res"@)]
    }) + (if p.author_id >= 1 {
        Seq::empty()
    } else {
        seq![violation("author_id"@, "L'ID auteur doit \u{ea}tre positif"@)]
    }) + (match p.metadata {
        Some(m) => metadata_violations(m),
        None => Seq::empty(),
    })
}

/// A post-update body is valid when each present field satisfies the same
/// rule it has on creation.
pub open spec fn valid_update_post(p: UpdatePostView) -> bool {
    &&& match p.title {
        Some(t) => 3 <= t.len() <= 255,
        None => true,
    }
    &&& match p.content {
        Some(c) => c.len() >= 10,
        None => true,
    }
    &&& match p.metadata {
        Some(m) => valid_metadata_dto(m),
        None => true,
    }
}

/// The violations of a post-update body.
pub open spec fn update_post_violations(p: UpdatePostView) -> Seq<ViolationView> {
    (match p.title {
        Some(t) => if 3 <= t.len() <= 255 {
            Seq::empty()
        } else {
            seq![violation("title"@, "Le titre doit faire entre 3 et 255 caract\u{e8}res"@)]
        },
        None => Seq::empty(),
    }) + (match p.content {
        Some(c) => if c.len() >= 10 {
            Seq::empty()
        } else {
            seq![violation("content"@, "Le contenu doit faire au moins 10 caract\u{e8}res"@)]
        },
        None => Seq::empty(),
    }) + (match p.metadata {
        Some(m) => metadata_violations(m),
        None => Seq::empty(),
    })
}

/// What the email check of the outside validator accepts; the result depends
/// on the characters alone.
pub uninterp spec fn is_email(s: Seq<char>) -> bool;

/// A user-creation body is valid when the username has 3 to 50 characters
/// and the email has a valid shape of at most 255 characters.
pub open spec fn valid_create_user(u: CreateUserView) -> bool {
    &&& 3 <= u.username.len() <= 50
    &&& is_email(u.email)
    &&& u.email.len() <= 255
}

/// The violations of a user-creation body.
pub open spec fn create_user_violations(u: CreateUserView) -> Seq<ViolationView> {
    (if 3 <= u.username.len() <= 50 {
        Seq::empty()
    } else {
        seq![violation("username"@, "Username must be between 3 and 50 characters"@)]
    }) + (if is_email(u.email) {
        Seq::empty()
    } else {
        seq![violation("email"@, "Invalid email format"@)]
    }) + (if u.email.len() <= 255 {
        Seq::empty()
    } else {
        seq![violation("email"@, "Email must not exceed 255 characters"@)]
    })
}

/// A user-update body is valid when each present field satisfies the same
/// rule it has on creation.
pub open spec fn valid_update_user(u: UpdateUserView) -> bool {
    &&& match u.username {
        Some(n) => 3 <= n.len() <= 50,
        None => true,
    }
    &&& match u.email {
        Some(e) => is_email(e) && e.len() <= 255,
        None => true,
    }
}

/// The violations of a user-update body.
pub open spec fn update_user_violations(u: UpdateUserView) -> Seq<ViolationView> {
    (match u.username {
        Some(n) => if 3 <= n.len() <= 50 {
            Seq::empty()
        } else {
            seq![violation("username"@, "Username must be between 3 and 50 characters"@)]
        },
        None => Seq::empty(),
    }) + (match u.email {
        Some(e) => (if is_email(e) {
            Seq::empty()
        } else {
            seq![violation("email"@, "Invalid email format"@)]
        }) + (if e.len() <= 255 {
            Seq::empty()
        } else {
            seq![violation("email"@, "Email must not exceed 255 characters"@)]
        }),
        None => Seq::empty(),
    })
}

// ---------------------------------------------------------------------------
// The executable checks.
// ---------------------------------------------------------------------------
/// Relies on the validator crate's `ValidateEmail` impl for `String`: the
/// HTML5 email-shape check, a function of the characters alone.
#[verifier::external_body]
fn email_format_ok(s: &String) -> (r: bool)
    ensures
        r == is_email(s@),
{
    validator::ValidateEmail::validate_email(s)
}

/// Appends the violations of one tag.
fn check_tag(t: &CreateTagDto, path: &String, out: &mut Vec<Violation>)
    ensures
        final(out).deep_view() == old(out).deep_view() + tag_violations(t@, path@),
{
    let ghost base = out.deep_view();
    let name_len: usize = t.name.as_str().unicode_len();
    if !(1 <= name_len && name_len <= 50) {
        out.push(
            Violation {
                field: path.clone().concat(".name"),
                message: "Le nom du tag doit faire entre 1 et 50 caract\u{e8}res".to_owned(),
            },
        );
    }
    match &t.color {
        Some(c) => {
            let color_len: usize = c.as_str().unicode_len();
            if color_len > 7 {
                out.push(
                    Violation {
                        field: path.clone().concat(".color"),
                        message: "La couleur doit \u{ea}tre un code hex (ex: #FF0000)".to_owned(),
                    },
                );
            }
        },
        None => {},
    }
    proof {
        assert(out.deep_view() =~= base + tag_violations(t@, path@));
    }
}

/// Appends the violations of an SEO block.
fn check_seo(s: &CreateSeoMetadataDto, out: &mut Vec<Violation>)
    ensures
        final(out).deep_view() == old(out).deep_view() + seo_violations(s@),
{
    let ghost base = out.deep_view();
    match &s.meta_title {
        Some(t) => {
            if t.as_str().unicode_len() > 70 {
                out.push(
                    Violation {
                        field: "metadata.seo.meta_title".to_owned(),
                        message: "Le meta title ne doit pas d\u{e9}passer 70 caract\u{e8}res"
                            .to_owned(),
                    },
                );
            }
        },
        None => {},
    }
    match &s.meta_description {
        Some(d) => {
            if d.as_str().unicode_len() > 160 {
                out.push(
                    Violation {
                        field: "metadata.seo.meta_description".to_owned(),
                        message:
                            "La meta description ne doit pas d\u{e9}passer 160 caract\u{e8}res"
                            .to_owned(),
                    },
                );
            }
        },
        None => {},
    }
    match &s.keywords {
        Some(ks) => {
            if ks.len() > 10 {
                out.push(
                    Violation {
                        field: "metadata.seo.keywords".to_owned(),
                        message: "Maximum 10 keywords autoris\u{e9}s".to_owned(),
                    },
                );
            }
        },
        None => {},
    }
    proof {
        assert(out.deep_view() =~= base + seo_violations(s@));
    }
}

/// Appends the violations of a settings block.
fn check_settings(s: &CreatePostSettingsDto, out: &mut Vec<Violation>)
    ensures
        final(out).deep_view() == old(out).deep_view() + settings_violations(s@),
{
    let ghost base = out.deep_view();
    match &s.reading_time_minutes {
        Some(m) => {
            if !(1 <= *m && *m <= 60) {
                out.push(
                    Violation {
                        field: "metadata.settings.reading_time_minutes".to_owned(),
                        message: "Le temps de lecture doit \u{ea}tre entre 1 et 60 minutes"
                            .to_owned(),
                    },
                );
            }
        },
        None => {},
    }
    proof {
        assert(out.deep_view() =~= base + settings_violations(s@));
    }
}

/// Appends the violations of an inbound metadata document, nested parts
/// included.
fn check_metadata(m: &CreatePostMetadataDto, out: &mut Vec<Violation>)
    ensures
        final(out).deep_view() == old(out).deep_view() + metadata_violations(m@),
{
    let ghost base = out.deep_view();
    match &m.tags {
        Some(ts) => {
            if ts.len() > 10 {
                out.push(
                    Violation {
                        field: "metadata.tags".to_owned(),
                        message: "Maximum 10 tags autoris\u{e9}s".to_owned(),
                    },
                );
            }
            let ghost after_count = out.deep_view();
            let n: usize = ts.len();
            for i in 0..n
                invariant
                    n == ts.len(),
                    out.deep_view() == after_count + tags_violations(ts.deep_view(), i as int),
            {
                let ghost before = out.deep_view();
                let path: String = "metadata.tags[".to_owned().concat(
                    u64_to_dec(i as u64).as_str(),
                ).concat("]");
                proof {
                    assert(path@ =~= tag_path(i as int));
                }
                check_tag(&ts[i], &path, out);
                proof {
                    assert(out.deep_view() =~= after_count + (tags_violations(
                        ts.deep_view(),
                        i as int,
                    ) + tag_violations(ts.deep_view()[i as int], tag_path(i as int))));
                    assert(out.deep_view() =~= after_count + tags_violations(
                        ts.deep_view(),
                        i + 1,
                    ));
                }
            }
        },
        None => {},
    }
    let ghost after_tags = out.deep_view();
    match &m.seo {
        Some(s) => check_seo(s, out),
        None => {},
    }
    let ghost after_seo = out.deep_view();
    match &m.settings {
        Some(s) => check_settings(s, out),
        None => {},
    }
    proof {
        assert(out.deep_view() =~= base + metadata_violations(m@));
    }
}

/// Collects every violation of a post-creation body, in field order.
pub fn create_post_violation_list(dto: &CreatePostDto) -> (r: Vec<Violation>)
    ensures
        r.deep_view() == create_post_violations(dto@),
{
    let mut out: Vec<Violation> = Vec::new();
    let title_len: usize = dto.title.as_str().unicode_len();
    if !(3 <= title_len && title_len <= 255) {
        out.push(
            Violation {
                field: "title".to_owned(),
                message: "Le titre doit faire entre 3 et 255 caract\u{e8}res".to_owned(),
            },
        );
    }
    if dto.content.as_str().unicode_len() < 10 {
        out.push(
            Violation {
                field: "content".to_owned(),
                message: "Le contenu doit faire au moins 10 caract\u{e8}res".to_owned(),
            },
        );
    }
    if dto.author_id < 1 {
        out.push(
            Violation {
                field: "author_id".to_owned(),
                message: "L'ID auteur doit \u{ea}tre positif".to_owned(),
            },
        );
    }
    match &dto.metadata {
        Some(m) => check_metadata(m, &mut out),
        None => {},
    }
    proof {
        assert(out.deep_view() =~= create_post_violations(dto@));
    }
    out
}

/// Collects every violation of a post-update body, in field order.
pub fn update_post_violation_list(dto: &UpdatePostDto) -> (r: Vec<Violation>)
    ensures
        r.deep_view() == update_post_violations(dto@),
{
    let mut out: Vec<Violation> = Vec::new();
    match &dto.title {
        Some(t) => {
            let title_len: usize = t.as_str().unicode_len();
            if !(3 <= title_len && title_len <= 255) {
                out.push(
                    Violation {
                        field: "title".to_owned(),
                        message: "Le titre doit faire entre 3 et 255 caract\u{e8}res".to_owned(),
                    },
                );
            }
        },
        None => {},
    }
    match &dto.content {
        Some(c) => {
            if c.as_str().unicode_len() < 10 {
                out.push(
                    Violation {
                        field: "content".to_owned(),
                        message: "Le contenu doit faire au moins 10 caract\u{e8}res".to_owned(),
                    },
                );
            }
        },
        None => {},
    }
    match &dto.metadata {
        Some(m) => check_metadata(m, &mut out),
        None => {},
    }
    proof {
        assert(out.deep_view() =~= update_post_violations(dto@));
    }
    out
}

/// Collects every violation of a user-creation body, in field order.
pub fn create_user_violation_list(dto: &CreateUserDto) -> (r: Vec<Violation>)
    ensures
        r.deep_view() == create_user_violations(dto@),
{
    let mut out: Vec<Violation> = Vec::new();
    let username_len: usize = dto.username.as_str().unicode_len();
    if !(3 <= username_len && username_len <= 50) {
        out.push(
            Violation {
                field: "username".to_owned(),
                message: "Username must be between 3 and 50 characters".to_owned(),
            },
        );
    }
    if !email_format_ok(&dto.email) {
        out.push(
            Violation {
                field: "email".to_owned(),
                message: "Invalid email format".to_owned(),
            },
        );
    }
    if dto.email.as_str().unicode_len() > 255 {
        out.push(
            Violation {
                field: "email".to_owned(),
                message: "Email must not exceed 255 characters".to_owned(),
            },
        );
    }
    proof {
        assert(out.deep_view() =~= create_user_violations(dto@));
    }
    out
}

/// Collects every violation of a user-update body, in field order.
pub fn update_user_violation_list(dto: &UpdateUserDto) -> (r: Vec<Violation>)
    ensures
        r.deep_view() == update_user_violations(dto@),
{
    let mut out: Vec<Violation> = Vec::new();
    match &dto.username {
        Some(n) => {
            let username_len: usize = n.as_str().unicode_len();
            if !(3 <= username_len && username_len <= 50) {
                out.push(
                    Violation {
                        field: "username".to_owned(),
                        message: "Username must be between 3 and 50 characters".to_owned(),
                    },
                );
            }
        },
        None => {},
    }
    match &dto.email {
        Some(e) => {
            if !email_format_ok(e) {
                out.push(
                    Violation {
                        field: "email".to_owned(),
                        message: "Invalid email format".to_owned(),
                    },
                );
            }
            if e.as_str().unicode_len() > 255 {
                out.push(
                    Violation {
                        field: "email".to_owned(),
                        message: "Email must not exceed 255 characters".to_owned(),
                    },
                );
            }
        },
        None => {},
    }
    proof {
        assert(out.deep_view() =~= update_user_violations(dto@));
    }
    out
}

// ---------------------------------------------------------------------------
// The violation list is empty exactly on valid input.
// ---------------------------------------------------------------------------
/// The tag-list violations are empty exactly when the first `k` tags are
/// valid.
proof fn lemma_tags_violations_empty(tags: Seq<TagView>, k: int)
    requires
        0 <= k <= tags.len(),
    ensures
        tags_violations(tags, k).len() == 0 <==> forall|i: int|
            0 <= i < k ==> valid_tag(#[trigger] tags[i]),
    decreases k,
{
    if k > 0 {
        lemma_tags_violations_empty(tags, k - 1);
        assert(tag_violations(tags[k - 1], tag_path(k - 1)).len() == 0 <==> valid_tag(
            tags[k - 1],
        ));
    }
}

/// The violation list of a metadata document is empty exactly when the
/// document is valid.
proof fn lemma_metadata_violations_empty(m: MetadataDtoView)
    ensures
        metadata_violations(m).len() == 0 <==> valid_metadata_dto(m),
{
    match m.tags {
        Some(ts) => {
            lemma_tags_violations_empty(ts, ts.len() as int);
        },
        None => {},
    }
}

/// The violation list of a post-creation body is empty exactly when the body
/// is valid.
pub proof fn lemma_create_post_violations_empty(p: CreatePostView)
    ensures
        create_post_violations(p).len() == 0 <==> valid_create_post(p),
{
    match p.metadata {
        Some(m) => lemma_metadata_violations_empty(m),
        None => {},
    }
}

/// The violation list of a post-update body is empty exactly when the body
/// is valid.
pub proof fn lemma_update_post_violations_empty(p: UpdatePostView)
    ensures
        update_post_violations(p).len() == 0 <==> valid_update_post(p),
{
    match p.metadata {
        Some(m) => lemma_metadata_violations_empty(m),
        None => {},
    }
}

/// The violation list of a user-creation body is empty exactly when the body
/// is valid.
pub proof fn lemma_create_user_violations_empty(u: CreateUserView)
    ensures
        create_user_violations(u).len() == 0 <==> valid_create_user(u),
{
}

/// The violation list of a user-update body is empty exactly when the body
/// is valid.
pub proof fn lemma_update_user_violations_empty(u: UpdateUserView)
    ensures
        update_user_violations(u).len() == 0 <==> valid_update_user(u),
{
}

// ---------------------------------------------------------------------------
// Grouping: the violations of one field are reported together, fields in
// order of their first violation.
// ---------------------------------------------------------------------------
/// The violations of one field, gathered for the response body.
#[derive(Debug)]
pub struct FieldViolations {
    pub field: String,
    pub messages: Vec<String>,
}

/// Mathematical view of a [`FieldViolations`].
#[verifier::ext_equal]
pub ghost struct FieldViolationsView {
    pub field: Seq<char>,
    pub messages: Seq<Seq<char>>,
}

impl View for FieldViolations {
    type V = FieldViolationsView;

    open spec fn view(&self) -> FieldViolationsView {
        FieldViolationsView { field: self.field@, messages: self.messages.deep_view() }
    }
}

impl DeepView for FieldViolations {
    type V = FieldViolationsView;

    open spec fn deep_view(&self) -> FieldViolationsView {
        self.view()
    }
}

/// Index of the first group with the given field, or -1 where none has it.
pub open spec fn find_group(groups: Seq<FieldViolationsView>, f: Seq<char>) -> int
    decreases groups.len(),
{
    if groups.len() == 0 {
        -1
    } else if groups[0].field == f {
        0
    } else {
        let r = find_group(groups.subrange(1, groups.len() as int), f);
        if r < 0 {
            -1
        } else {
            r + 1
        }
    }
}

/// Adds one violation to the groups: to the group of its field, or as a new
/// group at the end.
pub open spec fn add_to_groups(groups: Seq<FieldViolationsView>, v: ViolationView) -> Seq<
    FieldViolationsView,
> {
    let i = find_group(groups, v.field);
    if i < 0 {
        groups.push(FieldViolationsView { field: v.field, messages: seq![v.message] })
    } else {
        groups.update(
            i,
            FieldViolationsView {
                field: groups[i].field,
                messages: groups[i].messages.push(v.message),
            },
        )
    }
}

/// The first `k` violations of a list, grouped by field.
pub open spec fn group_violations_prefix(vs: Seq<ViolationView>, k: int) -> Seq<
    FieldViolationsView,
>
    decreases k,
{
    if k <= 0 {
        Seq::empty()
    } else {
        add_to_groups(group_violations_prefix(vs, k - 1), vs[k - 1])
    }
}

/// A violation list grouped by field, fields in order of their first
/// violation, messages of one field in list order.
pub open spec fn group_violations(vs: Seq<ViolationView>) -> Seq<FieldViolationsView> {
    group_violations_prefix(vs, vs.len() as int)
}

/// `find_group` names the first index bearing the field, and -1 only where
/// no index bears it.
proof fn lemma_find_group_char(groups: Seq<FieldViolationsView>, f: Seq<char>)
    ensures
        find_group(groups, f) < 0 ==> forall|j: int|
            0 <= j < groups.len() ==> (#[trigger] groups[j]).field != f,
        find_group(groups, f) >= 0 ==> find_group(groups, f) < groups.len() && groups[find_group(
            groups,
            f,
        )].field == f && forall|j: int|
            0 <= j < find_group(groups, f) ==> (#[trigger] groups[j]).field != f,
    decreases groups.len(),
{
    if groups.len() > 0 && groups[0].field != f {
        let rest = groups.subrange(1, groups.len() as int);
        lemma_find_group_char(rest, f);
        assert(forall|j: int| 1 <= j < groups.len() ==> rest[j - 1] == #[trigger] groups[j]);
    }
}

/// Finds the group of a field, scanning from the front.
fn find_group_index(groups: &Vec<FieldViolations>, field: &String) -> (r: Option<usize>)
    ensures
        match r {
            Some(i) => i < groups.len() && i as int == find_group(groups.deep_view(), field@),
            None => find_group(groups.deep_view(), field@) < 0,
        },
{
    let n: usize = groups.len();
    for i in 0..n
        invariant
            n == groups.len(),
            forall|j: int| 0 <= j < i ==> (#[trigger] groups.deep_view()[j]).field != field@,
    {
        if groups[i].field == *field {
            proof {
                assert(groups.deep_view()[i as int].field == field@);
                lemma_find_group_char(groups.deep_view(), field@);
                let f = find_group(groups.deep_view(), field@);
                assert(f >= 0);
                if f < i as int {
                    assert(groups.deep_view()[f].field != field@);
                }
                if f > i as int {
                    assert(groups.deep_view()[i as int].field != field@);
                }
            }
            return Some(i);
        }
    }
    proof {
        lemma_find_group_char(groups.deep_view(), field@);
    }
    None
}

/// Groups a violation list by field.
pub fn group_violation_list(vs: &Vec<Violation>) -> (r: Vec<FieldViolations>)
    ensures
        r.deep_view() == group_violations(vs.deep_view()),
{
    let mut groups: Vec<FieldViolations> = Vec::new();
    let n: usize = vs.len();
    for k in 0..n
        invariant
            n == vs.len(),
            groups.deep_view() == group_violations_prefix(vs.deep_view(), k as int),
    {
        let ghost before = groups.deep_view();
        let v = &vs[k];
        let found = find_group_index(&groups, &v.field);
        match found {
            Some(i) => {
                groups[i].messages.push(v.message.clone());
                proof {
                    assert(groups.deep_view() =~~= add_to_groups(before, v@));
                }
            },
            None => {
                let mut messages: Vec<String> = Vec::new();
                messages.push(v.message.clone());
                groups.push(FieldViolations { field: v.field.clone(), messages });
                proof {
                    assert(groups.deep_view() =~~= add_to_groups(before, v@));
                }
            },
        }
        proof {
            assert(vs.deep_view()[k as int] == v@);
            assert(groups.deep_view() == group_violations_prefix(vs.deep_view(), k + 1));
        }
    }
    proof {
        assert(groups.deep_view() == group_violations(vs.deep_view()));
    }
    groups
}

// ---------------------------------------------------------------------------
// The rejection itself: unprocessable input with its violations, or a body
// that could not even be read, and the uniform body both serialize to.
// ---------------------------------------------------------------------------
/// Why a request body was rejected before any business logic ran.
#[derive(Debug)]
pub enum ValidationError {
    /// The body parsed but broke validation rules.
    ValidationFailed(Vec<FieldViolations>),
    /// The body could not be read as the expected shape.
    JsonError(String),
}

/// Mathematical view of a [`ValidationError`].
pub ghost enum ValidationErrorView {
    ValidationFailed(Seq<FieldViolationsView>),
    JsonError(Seq<char>),
}

impl View for ValidationError {
    type V = ValidationErrorView;

    open spec fn view(&self) -> ValidationErrorView {
        match self {
            ValidationError::ValidationFailed(groups) => ValidationErrorView::ValidationFailed(
                groups.deep_view(),
            ),
            ValidationError::JsonError(d) => ValidationErrorView::JsonError(d@),
        }
    }
}

/// The HTTP status of a rejection: unprocessable content for rule breaches,
/// bad request for unreadable bodies.
pub open spec fn validation_status(e: ValidationErrorView) -> u16 {
    match e {
        ValidationErrorView::ValidationFailed(_) => 422,
        ValidationErrorView::JsonError(_) => 400,
    }
}

/// The JSON document of one field's violations.
pub open spec fn group_json(g: FieldViolationsView) -> crate::json::JsonView {
    crate::json::JsonView::Obj(
        seq![
            ("field"@, crate::json::JsonView::Str(g.field)),
            (
                "messages"@,
                crate::json::JsonView::Arr(
                    Seq::new(g.messages.len(), |i: int| crate::json::JsonView::Str(g.messages[i])),
                ),
            ),
        ],
    )
}

/// The body of a rejection: `{"error": "Validation failed", "violations":
/// [...]}`, an unreadable body reported as the single pseudo-field `_json`.
pub open spec fn validation_body(e: ValidationErrorView) -> crate::json::JsonView {
    crate::json::JsonView::Obj(
        seq![
            ("error"@, crate::json::JsonView::Str("Validation failed"@)),
            (
                "violations"@,
                crate::json::JsonView::Arr(
                    match e {
                        ValidationErrorView::ValidationFailed(groups) => Seq::new(
                            groups.len(),
                            |i: int| group_json(groups[i]),
                        ),
                        ValidationErrorView::JsonError(d) => seq![
                            group_json(
                                FieldViolationsView { field: "_json"@, messages: seq![d] },
                            ),
                        ],
                    },
                ),
            ),
        ],
    )
}

/// Builds the JSON document of one field's violations.
fn group_to_json(g: &FieldViolations) -> (r: crate::json::JsonValue)
    ensures
        r@ == group_json(g@),
{
    let mut messages: Vec<crate::json::JsonValue> = Vec::new();
    let n: usize = g.messages.len();
    for i in 0..n
        invariant
            n == g.messages.len(),
            messages.len() == i,
            forall|j: int|
                0 <= j < i ==> messages@[j]@ == crate::json::JsonView::Str(g.messages@[j]@),
    {
        messages.push(crate::json::JsonValue::Str(g.messages[i].clone()));
    }
    let mut pairs: Vec<(String, crate::json::JsonValue)> = Vec::new();
    pairs.push(("field".to_owned(), crate::json::JsonValue::Str(g.field.clone())));
    pairs.push(("messages".to_owned(), crate::json::JsonValue::Arr(messages)));
    let r = crate::json::JsonValue::Obj(pairs);
    proof {
        assert(crate::json::arr_view(messages@) =~= Seq::new(
            g@.messages.len(),
            |i: int| crate::json::JsonView::Str(g@.messages[i]),
        ));
        assert(crate::json::obj_view(r->Obj_0@) =~= group_json(g@)->Obj_0);
    }
    r
}

impl ValidationError {
    /// The HTTP status this rejection answers with.
    pub fn status_code(&self) -> (r: u16)
        ensures
            r == validation_status(self@),
    {
        match self {
            ValidationError::ValidationFailed(_) => 422,
            ValidationError::JsonError(_) => 400,
        }
    }

    /// The response body of this rejection.
    pub fn body(&self) -> (r: crate::json::JsonValue)
        ensures
            r@ == validation_body(self@),
    {
        let violations: Vec<crate::json::JsonValue> = match self {
            ValidationError::ValidationFailed(groups) => {
                let mut items: Vec<crate::json::JsonValue> = Vec::new();
                let n: usize = groups.len();
                for i in 0..n
                    invariant
                        n == groups.len(),
                        items.len() == i,
                        forall|j: int| 0 <= j < i ==> items@[j]@ == group_json(groups@[j]@),
                {
                    items.push(group_to_json(&groups[i]));
                }
                items
            },
            ValidationError::JsonError(d) => {
                let mut messages: Vec<String> = Vec::new();
                messages.push(d.clone());
                let one = FieldViolations { field: "_json".to_owned(), messages };
                proof {
                    assert(one@.messages =~= seq![d@]);
                }
                let mut items: Vec<crate::json::JsonValue> = Vec::new();
                items.push(group_to_json(&one));
                items
            },
        };
        let mut pairs: Vec<(String, crate::json::JsonValue)> = Vec::new();
        pairs.push(
            ("error".to_owned(), crate::json::JsonValue::Str("Validation failed".to_owned())),
        );
        pairs.push(("violations".to_owned(), crate::json::JsonValue::Arr(violations)));
        let r = crate::json::JsonValue::Obj(pairs);
        proof {
            match self@ {
                ValidationErrorView::ValidationFailed(groups) => {
                    assert(crate::json::arr_view(violations@) =~= Seq::new(
                        groups.len(),
                        |i: int| group_json(groups[i]),
                    ));
                },
                ValidationErrorView::JsonError(d) => {
                    assert(crate::json::arr_view(violations@) =~= seq![
                        group_json(FieldViolationsView { field: "_json"@, messages: seq![d] }),
                    ]);
                },
            }
            assert(crate::json::obj_view(r->Obj_0@) =~= validation_body(self@)->Obj_0);
        }
        r
    }
}

// ---------------------------------------------------------------------------
// The validated wrapper: a request body that passed the cascade.
// ---------------------------------------------------------------------------
/// A request body that has passed the validation cascade.
pub struct ValidatedJson<T>(pub T);

/// Runs the cascade on a post-creation body: the body comes back wrapped
/// when it is valid; otherwise every violation is reported, grouped by
/// field.
pub fn validate_create_post(dto: CreatePostDto) -> (r: Result<
    ValidatedJson<CreatePostDto>,
    ValidationError,
>)
    ensures
        match r {
            Ok(v) => valid_create_post(dto@) && v.0@ == dto@,
            Err(e) => !valid_create_post(dto@) && e@ == ValidationErrorView::ValidationFailed(
                group_violations(create_post_violations(dto@)),
            ),
        },
{
    proof {
        lemma_create_post_violations_empty(dto@);
    }
    let vs = create_post_violation_list(&dto);
    if vs.len() == 0 {
        Ok(ValidatedJson(dto))
    } else {
        Err(ValidationError::ValidationFailed(group_violation_list(&vs)))
    }
}

/// Runs the cascade on a post-update body.
pub fn validate_update_post(dto: UpdatePostDto) -> (r: Result<
    ValidatedJson<UpdatePostDto>,
    ValidationError,
>)
    ensures
        match r {
            Ok(v) => valid_update_post(dto@) && v.0@ == dto@,
            Err(e) => !valid_update_post(dto@) && e@ == ValidationErrorView::ValidationFailed(
                group_violations(update_post_violations(dto@)),
            ),
        },
{
    proof {
        lemma_update_post_violations_empty(dto@);
    }
    let vs = update_post_violation_list(&dto);
    if vs.len() == 0 {
        Ok(ValidatedJson(dto))
    } else {
        Err(ValidationError::ValidationFailed(group_violation_list(&vs)))
    }
}

/// Runs the cascade on a user-creation body.
pub fn validate_create_user(dto: CreateUserDto) -> (r: Result<
    ValidatedJson<CreateUserDto>,
    ValidationError,
>)
    ensures
        match r {
            Ok(v) => valid_create_user(dto@) && v.0@ == dto@,
            Err(e) => !valid_create_user(dto@) && e@ == ValidationErrorView::ValidationFailed(
                group_violations(create_user_violations(dto@)),
            ),
        },
{
    proof {
        lemma_create_user_violations_empty(dto@);
    }
    let vs = create_user_violation_list(&dto);
    if vs.len() == 0 {
        Ok(ValidatedJson(dto))
    } else {
        Err(ValidationError::ValidationFailed(group_violation_list(&vs)))
    }
}

/// Runs the cascade on a user-update body.
pub fn validate_update_user(dto: UpdateUserDto) -> (r: Result<
    ValidatedJson<UpdateUserDto>,
    ValidationError,
>)
    ensures
        match r {
            Ok(v) => valid_update_user(dto@) && v.0@ == dto@,
            Err(e) => !valid_update_user(dto@) && e@ == ValidationErrorView::ValidationFailed(
                group_violations(update_user_violations(dto@)),
            ),
        },
{
    proof {
        lemma_update_user_violations_empty(dto@);
    }
    let vs = update_user_violation_list(&dto);
    if vs.len() == 0 {
        Ok(ValidatedJson(dto))
    } else {
        Err(ValidationError::ValidationFailed(group_violation_list(&vs)))
    }
}

} // verus!
