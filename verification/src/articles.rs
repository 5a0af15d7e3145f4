//! The article payloads of the API, and their decoder and encoder.
//!
//! An article is a flat record: scalar members, one array of tag strings,
//! and one author sub-record of scalars. `article_from_obj` decodes a JSON
//! object into an [`Article`] and succeeds exactly on the objects that
//! `obj_is_article` describes; `article_to_obj` is its inverse, and
//! `lemma_article_roundtrip` proves that decoding an encoded article
//! recovers every field.

use vstd::prelude::*;

use crate::json::{JScalar, JScalarV, JItem, JItemV, JObj, sobj_view, sobj_index, obj_index};

verus! {

// ---------------------------------------------------------------------------
// Views of plain field values
// ---------------------------------------------------------------------------

/// The model of an optional string field.
pub open spec fn opt_str_view(v: Option<String>) -> Option<Seq<char>> {
    match v {
        Some(s) => Some(s@),
        None => None,
    }
}

/// The model of an optional numeric field.
pub open spec fn opt_u32_view(v: Option<u32>) -> Option<int> {
    match v {
        Some(n) => Some(n as int),
        None => None,
    }
}

/// The model of a list of strings.
pub open spec fn strs_view(v: Seq<String>) -> Seq<Seq<char>> {
    v.map_values(|s: String| s@)
}

// ---------------------------------------------------------------------------
// Members of an article object
// ---------------------------------------------------------------------------

/// The member `k` of `o` is present and holds a string.
pub open spec fn member_is_str(o: Seq<(Seq<char>, JItemV)>, k: Seq<char>) -> bool {
    obj_index(o, k) matches Some(JItemV::Scalar(JScalarV::Str(_)))
}

/// The string that the member `k` of `o` holds.
pub open spec fn member_str(o: Seq<(Seq<char>, JItemV)>, k: Seq<char>) -> Seq<char> {
    obj_index(o, k)->Some_0->Scalar_0->Str_0
}

/// The member `k` of `o` is absent, null, or holds a string.
pub open spec fn member_is_opt_str(o: Seq<(Seq<char>, JItemV)>, k: Seq<char>) -> bool {
    match obj_index(o, k) {
        None => true,
        Some(JItemV::Scalar(JScalarV::Null)) => true,
        Some(JItemV::Scalar(JScalarV::Str(_))) => true,
        Some(_) => false,
    }
}

/// The string that the member `k` of `o` holds, if it holds one.
pub open spec fn member_opt_str(o: Seq<(Seq<char>, JItemV)>, k: Seq<char>) -> Option<Seq<char>> {
    match obj_index(o, k) {
        Some(JItemV::Scalar(JScalarV::Str(s))) => Some(s),
        _ => None,
    }
}

/// The member `k` of `o` is present and holds an integer that fits in `u32`.
pub open spec fn member_is_u32(o: Seq<(Seq<char>, JItemV)>, k: Seq<char>) -> bool {
    match obj_index(o, k) {
        Some(JItemV::Scalar(JScalarV::Int(i))) => 0 <= i <= u32::MAX,
        _ => false,
    }
}

/// The integer that the member `k` of `o` holds.
pub open spec fn member_u32(o: Seq<(Seq<char>, JItemV)>, k: Seq<char>) -> int {
    obj_index(o, k)->Some_0->Scalar_0->Int_0
}

/// The member `k` of `o` is absent, null, or holds an integer fitting `u32`.
pub open spec fn member_is_opt_u32(o: Seq<(Seq<char>, JItemV)>, k: Seq<char>) -> bool {
    match obj_index(o, k) {
        None => true,
        Some(JItemV::Scalar(JScalarV::Null)) => true,
        Some(JItemV::Scalar(JScalarV::Int(i))) => 0 <= i <= u32::MAX,
        Some(_) => false,
    }
}

/// The integer that the member `k` of `o` holds, if it holds one.
pub open spec fn member_opt_u32(o: Seq<(Seq<char>, JItemV)>, k: Seq<char>) -> Option<int> {
    match obj_index(o, k) {
        Some(JItemV::Scalar(JScalarV::Int(i))) => Some(i),
        _ => None,
    }
}

/// The member `k` of `o` is present and holds an array of strings.
pub open spec fn member_is_str_arr(o: Seq<(Seq<char>, JItemV)>, k: Seq<char>) -> bool {
    match obj_index(o, k) {
        Some(JItemV::Arr(a)) => forall|i: int| 0 <= i < a.len() ==> a[i] is Str,
        _ => false,
    }
}

/// The strings that the array member `k` of `o` holds.
pub open spec fn member_str_arr(o: Seq<(Seq<char>, JItemV)>, k: Seq<char>) -> Seq<Seq<char>> {
    (obj_index(o, k)->Some_0->Arr_0).map_values(|s: JScalarV| s->Str_0)
}

/// The member `k` of `o` is present and holds a flat object of scalars.
pub open spec fn member_is_obj(o: Seq<(Seq<char>, JItemV)>, k: Seq<char>) -> bool {
    obj_index(o, k) matches Some(JItemV::Obj(_))
}

/// The flat object that the member `k` of `o` holds.
pub open spec fn member_obj(o: Seq<(Seq<char>, JItemV)>, k: Seq<char>) -> Seq<(Seq<char>, JScalarV)> {
    obj_index(o, k)->Some_0->Obj_0
}

// ---------------------------------------------------------------------------
// Fields of a flat scalar object (the author record)
// ---------------------------------------------------------------------------

/// The field `k` of the scalar object `u` is present and holds a string.
pub open spec fn field_is_str(u: Seq<(Seq<char>, JScalarV)>, k: Seq<char>) -> bool {
    sobj_index(u, k) matches Some(JScalarV::Str(_))
}

/// The string that the field `k` of `u` holds.
pub open spec fn field_str(u: Seq<(Seq<char>, JScalarV)>, k: Seq<char>) -> Seq<char> {
    sobj_index(u, k)->Some_0->Str_0
}

/// The field `k` of `u` is absent, null, or holds a string.
pub open spec fn field_is_opt_str(u: Seq<(Seq<char>, JScalarV)>, k: Seq<char>) -> bool {
    match sobj_index(u, k) {
        None => true,
        Some(JScalarV::Null) => true,
        Some(JScalarV::Str(_)) => true,
        Some(_) => false,
    }
}

/// The string that the field `k` of `u` holds, if it holds one.
pub open spec fn field_opt_str(u: Seq<(Seq<char>, JScalarV)>, k: Seq<char>) -> Option<Seq<char>> {
    match sobj_index(u, k) {
        Some(JScalarV::Str(s)) => Some(s),
        _ => None,
    }
}

/// The field `k` of `u` is present and holds an integer fitting `u32`.
pub open spec fn field_is_u32(u: Seq<(Seq<char>, JScalarV)>, k: Seq<char>) -> bool {
    match sobj_index(u, k) {
        Some(JScalarV::Int(i)) => 0 <= i <= u32::MAX,
        _ => false,
    }
}

/// The integer that the field `k` of `u` holds.
pub open spec fn field_u32(u: Seq<(Seq<char>, JScalarV)>, k: Seq<char>) -> int {
    sobj_index(u, k)->Some_0->Int_0
}

// ---------------------------------------------------------------------------
// Exec lookups with exact contracts
// ---------------------------------------------------------------------------

/// Reads a required string member.
pub fn get_str(o: &JObj, k: &str) -> (r: Option<String>)
    ensures
        r is Some == member_is_str(o@, k@),
        r matches Some(s) ==> s@ == member_str(o@, k@),
{
    match o.get(k) {
        Some(JItem::Scalar(JScalar::Str(s))) => Some(s.clone()),
        _ => None,
    }
}

/// Reads an optional string member: absent and null both read as `None`.
pub fn get_opt_str(o: &JObj, k: &str) -> (r: Option<Option<String>>)
    ensures
        r is Some == member_is_opt_str(o@, k@),
        r matches Some(v) ==> opt_str_view(v) == member_opt_str(o@, k@),
{
    match o.get(k) {
        None => Some(None),
        Some(JItem::Scalar(JScalar::Null)) => Some(None),
        Some(JItem::Scalar(JScalar::Str(s))) => Some(Some(s.clone())),
        Some(_) => None,
    }
}

/// Reads a required numeric member that must fit in `u32`.
pub fn get_u32(o: &JObj, k: &str) -> (r: Option<u32>)
    ensures
        r is Some == member_is_u32(o@, k@),
        r matches Some(n) ==> n as int == member_u32(o@, k@),
{
    match o.get(k) {
        Some(JItem::Scalar(JScalar::Int(i))) => {
            if 0 <= *i && *i <= u32::MAX as i64 {
                Some(*i as u32)
            } else {
                None
            }
        },
        _ => None,
    }
}

/// Reads an optional numeric member: absent and null both read as `None`.
pub fn get_opt_u32(o: &JObj, k: &str) -> (r: Option<Option<u32>>)
    ensures
        r is Some == member_is_opt_u32(o@, k@),
        r matches Some(v) ==> opt_u32_view(v) == member_opt_u32(o@, k@),
{
    match o.get(k) {
        None => Some(None),
        Some(JItem::Scalar(JScalar::Null)) => Some(None),
        Some(JItem::Scalar(JScalar::Int(i))) => {
            if 0 <= *i && *i <= u32::MAX as i64 {
                Some(Some(*i as u32))
            } else {
                None
            }
        },
        Some(_) => None,
    }
}

/// Reads a required member that holds an array of strings.
pub fn get_str_arr(o: &JObj, k: &str) -> (r: Option<Vec<String>>)
    ensures
        r is Some == member_is_str_arr(o@, k@),
        r matches Some(v) ==> strs_view(v@) == member_str_arr(o@, k@),
{
    match o.get(k) {
        Some(JItem::Arr(items)) => {
            let ghost a: Seq<JScalarV> = items@.map_values(|s: JScalar| s@);
            let n = items.len();
            let mut out: Vec<String> = Vec::new();
            let mut i: usize = 0;
            while i < n
                invariant
                    n == items@.len(),
                    a == items@.map_values(|s: JScalar| s@),
                    obj_index(o@, k@) == Some(JItemV::Arr(a)),
                    i <= n,
                    out@.len() == i,
                    forall|j: int| 0 <= j < i ==> a[j] is Str && out@[j]@ == a[j]->Str_0,
                decreases n - i,
            {
                match &items[i] {
                    JScalar::Str(s) => {
                        out.push(s.clone());
                    },
                    _ => {
                        proof {
                            assert(a[i as int] == items@[i as int]@);
                        }
                        return None;
                    },
                }
                i += 1;
            }
            proof {
                assert(strs_view(out@) =~= a.map_values(|s: JScalarV| s->Str_0));
            }
            Some(out)
        },
        _ => None,
    }
}

// ---------------------------------------------------------------------------
// The author record
// ---------------------------------------------------------------------------

/// The author of an article, as the payload carries it.
#[derive(Debug, Clone, PartialEq)]
pub struct User {
    pub name: Option<String>,
    pub username: String,
    pub twitter_username: Option<String>,
    pub github_username: Option<String>,
    pub user_id: u32,
    pub website_url: Option<String>,
    pub profile_image: String,
    pub profile_image_90: String,
}

/// The mathematical model of an author record.
#[verifier::ext_equal]
pub struct UserV {
    pub name: Option<Seq<char>>,
    pub username: Seq<char>,
    pub twitter_username: Option<Seq<char>>,
    pub github_username: Option<Seq<char>>,
    pub user_id: int,
    pub website_url: Option<Seq<char>>,
    pub profile_image: Seq<char>,
    pub profile_image_90: Seq<char>,
}

impl View for User {
    type V = UserV;

    open spec fn view(&self) -> UserV {
        UserV {
            name: opt_str_view(self.name),
            username: self.username@,
            twitter_username: opt_str_view(self.twitter_username),
            github_username: opt_str_view(self.github_username),
            user_id: self.user_id as int,
            website_url: opt_str_view(self.website_url),
            profile_image: self.profile_image@,
            profile_image_90: self.profile_image_90@,
        }
    }
}

/// The scalar object `u` has every field an author record needs, each with
/// the type the schema gives it.
pub open spec fn obj_is_user(u: Seq<(Seq<char>, JScalarV)>) -> bool {
    &&& field_is_opt_str(u, "name"@)
    &&& field_is_str(u, "username"@)
    &&& field_is_opt_str(u, "twitter_username"@)
    &&& field_is_opt_str(u, "github_username"@)
    &&& field_is_u32(u, "user_id"@)
    &&& field_is_opt_str(u, "website_url"@)
    &&& field_is_str(u, "profile_image"@)
    &&& field_is_str(u, "profile_image_90"@)
}

/// The author record that the scalar object `u` describes.
pub open spec fn user_of_obj(u: Seq<(Seq<char>, JScalarV)>) -> UserV {
    UserV {
        name: field_opt_str(u, "name"@),
        username: field_str(u, "username"@),
        twitter_username: field_opt_str(u, "twitter_username"@),
        github_username: field_opt_str(u, "github_username"@),
        user_id: field_u32(u, "user_id"@),
        website_url: field_opt_str(u, "website_url"@),
        profile_image: field_str(u, "profile_image"@),
        profile_image_90: field_str(u, "profile_image_90"@),
    }
}

/// Reads a required string field of a scalar object.
fn sget_str(u: &Vec<(String, JScalar)>, k: &str) -> (r: Option<String>)
    ensures
        r is Some == field_is_str(sobj_view(u@), k@),
        r matches Some(s) ==> s@ == field_str(sobj_view(u@), k@),
{
    match crate::json::sobj_get(u, k) {
        Some(JScalar::Str(s)) => Some(s.clone()),
        _ => None,
    }
}

/// Reads an optional string field of a scalar object.
fn sget_opt_str(u: &Vec<(String, JScalar)>, k: &str) -> (r: Option<Option<String>>)
    ensures
        r is Some == field_is_opt_str(sobj_view(u@), k@),
        r matches Some(v) ==> opt_str_view(v) == field_opt_str(sobj_view(u@), k@),
{
    match crate::json::sobj_get(u, k) {
        None => Some(None),
        Some(JScalar::Null) => Some(None),
        Some(JScalar::Str(s)) => Some(Some(s.clone())),
        Some(_) => None,
    }
}

/// Reads a required numeric field of a scalar object.
fn sget_u32(u: &Vec<(String, JScalar)>, k: &str) -> (r: Option<u32>)
    ensures
        r is Some == field_is_u32(sobj_view(u@), k@),
        r matches Some(n) ==> n as int == field_u32(sobj_view(u@), k@),
{
    match crate::json::sobj_get(u, k) {
        Some(JScalar::Int(i)) => {
            if 0 <= *i && *i <= u32::MAX as i64 {
                Some(*i as u32)
            } else {
                None
            }
        },
        _ => None,
    }
}

/// Decodes an author record from a flat scalar object. It succeeds exactly
/// when the object has the shape `obj_is_user` states, and then returns the
/// record `user_of_obj` describes.
pub fn user_from_sobj(u: &Vec<(String, JScalar)>) -> (r: Option<User>)
    ensures
        r is Some == obj_is_user(sobj_view(u@)),
        r matches Some(x) ==> x@ == user_of_obj(sobj_view(u@)),
{
    let name = match sget_opt_str(u, "name") { Some(v) => v, None => { return None }, };
    let username = match sget_str(u, "username") { Some(v) => v, None => { return None }, };
    let twitter_username = match sget_opt_str(u, "twitter_username") { Some(v) => v, None => { return None }, };
    let github_username = match sget_opt_str(u, "github_username") { Some(v) => v, None => { return None }, };
    let user_id = match sget_u32(u, "user_id") { Some(v) => v, None => { return None }, };
    let website_url = match sget_opt_str(u, "website_url") { Some(v) => v, None => { return None }, };
    let profile_image = match sget_str(u, "profile_image") { Some(v) => v, None => { return None }, };
    let profile_image_90 = match sget_str(u, "profile_image_90") { Some(v) => v, None => { return None }, };
    let x = User {
        name, username, twitter_username, github_username,
        user_id, website_url, profile_image, profile_image_90,
    };
    proof {
        assert(x@ =~= user_of_obj(sobj_view(u@)));
    }
    Some(x)
}

/// Reads the member `k` of `o` as an author record.
pub fn get_user(o: &JObj, k: &str) -> (r: Option<User>)
    ensures
        r is Some == (member_is_obj(o@, k@) && obj_is_user(member_obj(o@, k@))),
        r matches Some(x) ==> x@ == user_of_obj(member_obj(o@, k@)),
{
    match o.get(k) {
        Some(JItem::Obj(v)) => user_from_sobj(v),
        _ => None,
    }
}

// ---------------------------------------------------------------------------
// Articles
// ---------------------------------------------------------------------------

/// An article, with the fields the list and by-id endpoints return.
#[derive(Debug, Clone, PartialEq)]
pub struct Article {
    pub type_of: String,
    pub id: u32,
    pub title: String,
    pub description: String,
    pub readable_publish_date: String,
    pub slug: String,
    pub path: String,
    pub url: String,
    pub comments_count: u32,
    pub public_reactions_count: u32,
    pub collection_id: Option<u32>,
    pub published_timestamp: String,
    pub positive_reactions_count: u32,
    pub cover_image: Option<String>,
    pub social_image: String,
    pub canonical_url: String,
    pub created_at: String,
    pub edited_at: Option<String>,
    pub crossposted_at: Option<String>,
    pub published_at: String,
    pub last_comment_at: String,
    pub reading_time_minutes: u32,
    pub tag_list: Vec<String>,
    pub tags: String,
    pub user: User,
}

/// The mathematical model of an article.
#[verifier::ext_equal]
pub struct ArticleV {
    pub type_of: Seq<char>,
    pub id: int,
    pub title: Seq<char>,
    pub description: Seq<char>,
    pub readable_publish_date: Seq<char>,
    pub slug: Seq<char>,
    pub path: Seq<char>,
    pub url: Seq<char>,
    pub comments_count: int,
    pub public_reactions_count: int,
    pub collection_id: Option<int>,
    pub published_timestamp: Seq<char>,
    pub positive_reactions_count: int,
    pub cover_image: Option<Seq<char>>,
    pub social_image: Seq<char>,
    pub canonical_url: Seq<char>,
    pub created_at: Seq<char>,
    pub edited_at: Option<Seq<char>>,
    pub crossposted_at: Option<Seq<char>>,
    pub published_at: Seq<char>,
    pub last_comment_at: Seq<char>,
    pub reading_time_minutes: int,
    pub tag_list: Seq<Seq<char>>,
    pub tags: Seq<char>,
    pub user: UserV,
}

impl View for Article {
    type V = ArticleV;

    open spec fn view(&self) -> ArticleV {
        ArticleV {
            type_of: self.type_of@,
            id: self.id as int,
            title: self.title@,
            description: self.description@,
            readable_publish_date: self.readable_publish_date@,
            slug: self.slug@,
            path: self.path@,
            url: self.url@,
            comments_count: self.comments_count as int,
            public_reactions_count: self.public_reactions_count as int,
            collection_id: opt_u32_view(self.collection_id),
            published_timestamp: self.published_timestamp@,
            positive_reactions_count: self.positive_reactions_count as int,
            cover_image: opt_str_view(self.cover_image),
            social_image: self.social_image@,
            canonical_url: self.canonical_url@,
            created_at: self.created_at@,
            edited_at: opt_str_view(self.edited_at),
            crossposted_at: opt_str_view(self.crossposted_at),
            published_at: self.published_at@,
            last_comment_at: self.last_comment_at@,
            reading_time_minutes: self.reading_time_minutes as int,
            tag_list: strs_view(self.tag_list@),
            tags: self.tags@,
            user: self.user@,
        }
    }
}

/// The object `o` has every member an article needs, each with the type
/// the schema gives it. Members beyond these are
/// ignored.
pub open spec fn obj_is_article(o: Seq<(Seq<char>, JItemV)>) -> bool {
    &&& member_is_str(o, "type_of"@)
    &&& member_is_u32(o, "id"@)
    &&& member_is_str(o, "title"@)
    &&& member_is_str(o, "description"@)
    &&& member_is_str(o, "readable_publish_date"@)
    &&& member_is_str(o, "slug"@)
    &&& member_is_str(o, "path"@)
    &&& member_is_str(o, "url"@)
    &&& member_is_u32(o, "comments_count"@)
    &&& member_is_u32(o, "public_reactions_count"@)
    &&& member_is_opt_u32(o, "collection_id"@)
    &&& member_is_str(o, "published_timestamp"@)
    &&& member_is_u32(o, "positive_reactions_count"@)
    &&& member_is_opt_str(o, "cover_image"@)
    &&& member_is_str(o, "social_image"@)
    &&& member_is_str(o, "canonical_url"@)
    &&& member_is_str(o, "created_at"@)
    &&& member_is_opt_str(o, "edited_at"@)
    &&& member_is_opt_str(o, "crossposted_at"@)
    &&& member_is_str(o, "published_at"@)
    &&& member_is_str(o, "last_comment_at"@)
    &&& member_is_u32(o, "reading_time_minutes"@)
    &&& member_is_str_arr(o, "tag_list"@)
    &&& member_is_str(o, "tags"@)
    &&& member_is_obj(o, "user"@)
    &&& obj_is_user(member_obj(o, "user"@))
}

/// The article that the object `o` describes.
pub open spec fn article_of_obj(o: Seq<(Seq<char>, JItemV)>) -> ArticleV {
    ArticleV {
        type_of: member_str(o, "type_of"@),
        id: member_u32(o, "id"@),
        title: member_str(o, "title"@),
        description: member_str(o, "description"@),
        readable_publish_date: member_str(o, "readable_publish_date"@),
        slug: member_str(o, "slug"@),
        path: member_str(o, "path"@),
        url: member_str(o, "url"@),
        comments_count: member_u32(o, "comments_count"@),
        public_reactions_count: member_u32(o, "public_reactions_count"@),
        collection_id: member_opt_u32(o, "collection_id"@),
        published_timestamp: member_str(o, "published_timestamp"@),
        positive_reactions_count: member_u32(o, "positive_reactions_count"@),
        cover_image: member_opt_str(o, "cover_image"@),
        social_image: member_str(o, "social_image"@),
        canonical_url: member_str(o, "canonical_url"@),
        created_at: member_str(o, "created_at"@),
        edited_at: member_opt_str(o, "edited_at"@),
        crossposted_at: member_opt_str(o, "crossposted_at"@),
        published_at: member_str(o, "published_at"@),
        last_comment_at: member_str(o, "last_comment_at"@),
        reading_time_minutes: member_u32(o, "reading_time_minutes"@),
        tag_list: member_str_arr(o, "tag_list"@),
        tags: member_str(o, "tags"@),
        user: user_of_obj(member_obj(o, "user"@)),
    }
}

/// Decodes an article from a JSON object. It succeeds exactly when the
/// object has the shape `obj_is_article` states, and then returns the
/// article `article_of_obj` describes.
pub fn article_from_obj(o: &JObj) -> (r: Option<Article>)
    ensures
        r is Some == obj_is_article(o@),
        r matches Some(a) ==> a@ == article_of_obj(o@),
{
    let type_of = match get_str(o, "type_of") { Some(v) => v, None => { return None }, };
    let id = match get_u32(o, "id") { Some(v) => v, None => { return None }, };
    let title = match get_str(o, "title") { Some(v) => v, None => { return None }, };
    let description = match get_str(o, "description") { Some(v) => v, None => { return None }, };
    let readable_publish_date = match get_str(o, "readable_publish_date") { Some(v) => v, None => { return None }, };
    let slug = match get_str(o, "slug") { Some(v) => v, None => { return None }, };
    let path = match get_str(o, "path") { Some(v) => v, None => { return None }, };
    let url = match get_str(o, "url") { Some(v) => v, None => { return None }, };
    let comments_count = match get_u32(o, "comments_count") { Some(v) => v, None => { return None }, };
    let public_reactions_count = match get_u32(o, "public_reactions_count") { Some(v) => v, None => { return None }, };
    let collection_id = match get_opt_u32(o, "collection_id") { Some(v) => v, None => { return None }, };
    let published_timestamp = match get_str(o, "published_timestamp") { Some(v) => v, None => { return None }, };
    let positive_reactions_count = match get_u32(o, "positive_reactions_count") { Some(v) => v, None => { return None }, };
    let cover_image = match get_opt_str(o, "cover_image") { Some(v) => v, None => { return None }, };
    let social_image = match get_str(o, "social_image") { Some(v) => v, None => { return None }, };
    let canonical_url = match get_str(o, "canonical_url") { Some(v) => v, None => { return None }, };
    let created_at = match get_str(o, "created_at") { Some(v) => v, None => { return None }, };
    let edited_at = match get_opt_str(o, "edited_at") { Some(v) => v, None => { return None }, };
    let crossposted_at = match get_opt_str(o, "crossposted_at") { Some(v) => v, None => { return None }, };
    let published_at = match get_str(o, "published_at") { Some(v) => v, None => { return None }, };
    let last_comment_at = match get_str(o, "last_comment_at") { Some(v) => v, None => { return None }, };
    let reading_time_minutes = match get_u32(o, "reading_time_minutes") { Some(v) => v, None => { return None }, };
    let tag_list = match get_str_arr(o, "tag_list") { Some(v) => v, None => { return None }, };
    let tags = match get_str(o, "tags") { Some(v) => v, None => { return None }, };
    let user = match get_user(o, "user") { Some(v) => v, None => { return None }, };
    let a = Article {
        type_of, id, title, description, readable_publish_date, slug, path, url,
        comments_count, public_reactions_count, collection_id, published_timestamp,
        positive_reactions_count, cover_image, social_image, canonical_url,
        created_at, edited_at, crossposted_at, published_at, last_comment_at,
        reading_time_minutes, tag_list, tags, user,
    };
    proof {
        assert(a@ =~= article_of_obj(o@));
    }
    Some(a)
}

// ---------------------------------------------------------------------------
// Encoding
// ---------------------------------------------------------------------------

/// The scalar that an optional string encodes to: null when absent.
pub open spec fn opt_str_scalar(v: Option<Seq<char>>) -> JScalarV {
    match v {
        Some(s) => JScalarV::Str(s),
        None => JScalarV::Null,
    }
}

/// The scalar that an optional integer encodes to: null when absent.
pub open spec fn opt_int_scalar(v: Option<int>) -> JScalarV {
    match v {
        Some(i) => JScalarV::Int(i),
        None => JScalarV::Null,
    }
}

/// The object that an author record encodes to.
pub open spec fn user_obj(u: UserV) -> Seq<(Seq<char>, JScalarV)> {
    Seq::<(Seq<char>, JScalarV)>::empty()
        .push(("name"@, opt_str_scalar(u.name)))
        .push(("username"@, JScalarV::Str(u.username)))
        .push(("twitter_username"@, opt_str_scalar(u.twitter_username)))
        .push(("github_username"@, opt_str_scalar(u.github_username)))
        .push(("user_id"@, JScalarV::Int(u.user_id)))
        .push(("website_url"@, opt_str_scalar(u.website_url)))
        .push(("profile_image"@, JScalarV::Str(u.profile_image)))
        .push(("profile_image_90"@, JScalarV::Str(u.profile_image_90)))
}

/// The object that an article encodes to.
pub open spec fn article_obj(a: ArticleV) -> Seq<(Seq<char>, JItemV)> {
    Seq::<(Seq<char>, JItemV)>::empty()
        .push(("type_of"@, JItemV::Scalar(JScalarV::Str(a.type_of))))
        .push(("id"@, JItemV::Scalar(JScalarV::Int(a.id))))
        .push(("title"@, JItemV::Scalar(JScalarV::Str(a.title))))
        .push(("description"@, JItemV::Scalar(JScalarV::Str(a.description))))
        .push(("readable_publish_date"@, JItemV::Scalar(JScalarV::Str(a.readable_publish_date))))
        .push(("slug"@, JItemV::Scalar(JScalarV::Str(a.slug))))
        .push(("path"@, JItemV::Scalar(JScalarV::Str(a.path))))
        .push(("url"@, JItemV::Scalar(JScalarV::Str(a.url))))
        .push(("comments_count"@, JItemV::Scalar(JScalarV::Int(a.comments_count))))
        .push(("public_reactions_count"@, JItemV::Scalar(JScalarV::Int(a.public_reactions_count))))
        .push(("collection_id"@, JItemV::Scalar(opt_int_scalar(a.collection_id))))
        .push(("published_timestamp"@, JItemV::Scalar(JScalarV::Str(a.published_timestamp))))
        .push(("positive_reactions_count"@, JItemV::Scalar(JScalarV::Int(a.positive_reactions_count))))
        .push(("cover_image"@, JItemV::Scalar(opt_str_scalar(a.cover_image))))
        .push(("social_image"@, JItemV::Scalar(JScalarV::Str(a.social_image))))
        .push(("canonical_url"@, JItemV::Scalar(JScalarV::Str(a.canonical_url))))
        .push(("created_at"@, JItemV::Scalar(JScalarV::Str(a.created_at))))
        .push(("edited_at"@, JItemV::Scalar(opt_str_scalar(a.edited_at))))
        .push(("crossposted_at"@, JItemV::Scalar(opt_str_scalar(a.crossposted_at))))
        .push(("published_at"@, JItemV::Scalar(JScalarV::Str(a.published_at))))
        .push(("last_comment_at"@, JItemV::Scalar(JScalarV::Str(a.last_comment_at))))
        .push(("reading_time_minutes"@, JItemV::Scalar(JScalarV::Int(a.reading_time_minutes))))
        .push(("tag_list"@, JItemV::Arr(a.tag_list.map_values(|s: Seq<char>| JScalarV::Str(s)))))
        .push(("tags"@, JItemV::Scalar(JScalarV::Str(a.tags))))
        .push(("user"@, JItemV::Obj(user_obj(a.user))))
}

/// Encodes an optional string field.
fn opt_str_to_scalar(v: &Option<String>) -> (r: JScalar)
    ensures
        r@ == opt_str_scalar(opt_str_view(*v)),
{
    match v {
        Some(s) => JScalar::Str(s.clone()),
        None => JScalar::Null,
    }
}

/// Encodes an optional numeric field.
fn opt_u32_to_scalar(v: &Option<u32>) -> (r: JScalar)
    ensures
        r@ == opt_int_scalar(opt_u32_view(*v)),
{
    match v {
        Some(n) => JScalar::Int(*n as i64),
        None => JScalar::Null,
    }
}

/// Encodes an author record to a flat scalar object, in the canonical
/// member order of `user_obj`.
pub fn user_to_sobj(x: &User) -> (r: Vec<(String, JScalar)>)
    ensures
        sobj_view(r@) == user_obj(x@),
{
    let mut r: Vec<(String, JScalar)> = Vec::new();
    r.push(("name".to_owned(), opt_str_to_scalar(&x.name)));
    r.push(("username".to_owned(), JScalar::Str(x.username.clone())));
    r.push(("twitter_username".to_owned(), opt_str_to_scalar(&x.twitter_username)));
    r.push(("github_username".to_owned(), opt_str_to_scalar(&x.github_username)));
    r.push(("user_id".to_owned(), JScalar::Int(x.user_id as i64)));
    r.push(("website_url".to_owned(), opt_str_to_scalar(&x.website_url)));
    r.push(("profile_image".to_owned(), JScalar::Str(x.profile_image.clone())));
    r.push(("profile_image_90".to_owned(), JScalar::Str(x.profile_image_90.clone())));
    proof {
        assert(sobj_view(r@) =~= user_obj(x@));
    }
    r
}

/// Encodes an article to a JSON object, in the canonical member order of
/// `article_obj`.
pub fn article_to_obj(a: &Article) -> (r: JObj)
    ensures
        r@ == article_obj(a@),
{
    let mut tags_arr: Vec<JScalar> = Vec::new();
    let n = a.tag_list.len();
    let mut i: usize = 0;
    while i < n
        invariant
            n == a.tag_list@.len(),
            i <= n,
            tags_arr@.len() == i,
            forall|j: int| 0 <= j < i ==> tags_arr@[j]@ == JScalarV::Str(a.tag_list@[j]@),
        decreases n - i,
    {
        tags_arr.push(JScalar::Str(a.tag_list[i].clone()));
        i += 1;
    }
    proof {
        assert(tags_arr@.map_values(|s: JScalar| s@)
            =~= strs_view(a.tag_list@).map_values(|s: Seq<char>| JScalarV::Str(s)));
    }
    let mut r = JObj::new();
    r.push("type_of".to_owned(), JItem::Scalar(JScalar::Str(a.type_of.clone())));
    r.push("id".to_owned(), JItem::Scalar(JScalar::Int(a.id as i64)));
    r.push("title".to_owned(), JItem::Scalar(JScalar::Str(a.title.clone())));
    r.push("description".to_owned(), JItem::Scalar(JScalar::Str(a.description.clone())));
    r.push("readable_publish_date".to_owned(), JItem::Scalar(JScalar::Str(a.readable_publish_date.clone())));
    r.push("slug".to_owned(), JItem::Scalar(JScalar::Str(a.slug.clone())));
    r.push("path".to_owned(), JItem::Scalar(JScalar::Str(a.path.clone())));
    r.push("url".to_owned(), JItem::Scalar(JScalar::Str(a.url.clone())));
    r.push("comments_count".to_owned(), JItem::Scalar(JScalar::Int(a.comments_count as i64)));
    r.push("public_reactions_count".to_owned(), JItem::Scalar(JScalar::Int(a.public_reactions_count as i64)));
    r.push("collection_id".to_owned(), JItem::Scalar(opt_u32_to_scalar(&a.collection_id)));
    r.push("published_timestamp".to_owned(), JItem::Scalar(JScalar::Str(a.published_timestamp.clone())));
    r.push("positive_reactions_count".to_owned(), JItem::Scalar(JScalar::Int(a.positive_reactions_count as i64)));
    r.push("cover_image".to_owned(), JItem::Scalar(opt_str_to_scalar(&a.cover_image)));
    r.push("social_image".to_owned(), JItem::Scalar(JScalar::Str(a.social_image.clone())));
    r.push("canonical_url".to_owned(), JItem::Scalar(JScalar::Str(a.canonical_url.clone())));
    r.push("created_at".to_owned(), JItem::Scalar(JScalar::Str(a.created_at.clone())));
    r.push("edited_at".to_owned(), JItem::Scalar(opt_str_to_scalar(&a.edited_at)));
    r.push("crossposted_at".to_owned(), JItem::Scalar(opt_str_to_scalar(&a.crossposted_at)));
    r.push("published_at".to_owned(), JItem::Scalar(JScalar::Str(a.published_at.clone())));
    r.push("last_comment_at".to_owned(), JItem::Scalar(JScalar::Str(a.last_comment_at.clone())));
    r.push("reading_time_minutes".to_owned(), JItem::Scalar(JScalar::Int(a.reading_time_minutes as i64)));
    r.push("tag_list".to_owned(), JItem::Arr(tags_arr));
    r.push("tags".to_owned(), JItem::Scalar(JScalar::Str(a.tags.clone())));
    r.push("user".to_owned(), JItem::Obj(user_to_sobj(&a.user)));
    proof {
        assert(r@ =~= article_obj(a@));
    }
    r
}

// ---------------------------------------------------------------------------
// The round-trip law
// ---------------------------------------------------------------------------

/// The numeric fields of `a` fit the wire types, as every decoded article's
/// do.
pub open spec fn article_counts_fit(a: ArticleV) -> bool {
    &&& 0 <= a.id <= u32::MAX
    &&& 0 <= a.comments_count <= u32::MAX
    &&& 0 <= a.public_reactions_count <= u32::MAX
    &&& (a.collection_id matches Some(i) ==> 0 <= i <= u32::MAX)
    &&& 0 <= a.positive_reactions_count <= u32::MAX
    &&& 0 <= a.reading_time_minutes <= u32::MAX
    &&& 0 <= a.user.user_id <= u32::MAX
}

/// Appending a member changes a lookup only where the key was absent: the
/// first match stays the first match.
pub broadcast proof fn lemma_obj_index_push(
    o: Seq<(Seq<char>, JItemV)>,
    k: Seq<char>,
    v: JItemV,
    k2: Seq<char>,
)
    ensures
        #[trigger] obj_index(o.push((k, v)), k2) == (if obj_index(o, k2) is Some {
            obj_index(o, k2)
        } else if k2 == k {
            Some(v)
        } else {
            None::<JItemV>
        }),
    decreases o.len(),
{
    let o2 = o.push((k, v));
    if o.len() == 0 {
        assert(o2.drop_first() =~= Seq::<(Seq<char>, JItemV)>::empty());
    } else {
        assert(o2.drop_first() =~= o.drop_first().push((k, v)));
        lemma_obj_index_push(o.drop_first(), k, v, k2);
    }
}

/// The same appending lemma for flat scalar objects.
pub broadcast proof fn lemma_sobj_index_push(
    o: Seq<(Seq<char>, JScalarV)>,
    k: Seq<char>,
    v: JScalarV,
    k2: Seq<char>,
)
    ensures
        #[trigger] sobj_index(o.push((k, v)), k2) == (if sobj_index(o, k2) is Some {
            sobj_index(o, k2)
        } else if k2 == k {
            Some(v)
        } else {
            None::<JScalarV>
        }),
    decreases o.len(),
{
    let o2 = o.push((k, v));
    if o.len() == 0 {
        assert(o2.drop_first() =~= Seq::<(Seq<char>, JScalarV)>::empty());
    } else {
        assert(o2.drop_first() =~= o.drop_first().push((k, v)));
        lemma_sobj_index_push(o.drop_first(), k, v, k2);
    }
}

/// Law: an encoded author record decodes back to itself.
#[verifier::rlimit(60)]
pub proof fn lemma_user_roundtrip(u: UserV)
    requires
        0 <= u.user_id <= u32::MAX,
    ensures
        obj_is_user(user_obj(u)),
        user_of_obj(user_obj(u)) == u,
{
    broadcast use lemma_sobj_index_push;

    reveal_strlit("name");
    reveal_strlit("username");
    reveal_strlit("twitter_username");
    reveal_strlit("github_username");
    reveal_strlit("user_id");
    reveal_strlit("website_url");
    reveal_strlit("profile_image");
    reveal_strlit("profile_image_90");
    assert(("name"@).len() == 4);
    assert(("username"@).len() == 8);
    assert(("twitter_username"@).len() == 16);
    assert(("github_username"@).len() == 15);
    assert(("user_id"@).len() == 7);
    assert(("website_url"@).len() == 11);
    assert(("profile_image"@).len() == 13);
    assert(("profile_image_90"@).len() == 16);
    assert(("twitter_username"@)[0] == 't');
    assert(("profile_image_90"@)[0] == 'p');
    assert(user_of_obj(user_obj(u)) =~= u);
}

/// Law: an encoded article decodes back to itself, every field preserved.
pub proof fn lemma_article_roundtrip(a: ArticleV)
    requires
        article_counts_fit(a),
    ensures
        obj_is_article(article_obj(a)),
        article_of_obj(article_obj(a)) == a,
{
    broadcast use lemma_obj_index_push;

    reveal_strlit("type_of");
    reveal_strlit("id");
    reveal_strlit("title");
    reveal_strlit("description");
    reveal_strlit("readable_publish_date");
    reveal_strlit("slug");
    reveal_strlit("path");
    reveal_strlit("url");
    reveal_strlit("comments_count");
    reveal_strlit("public_reactions_count");
    reveal_strlit("collection_id");
    reveal_strlit("published_timestamp");
    reveal_strlit("positive_reactions_count");
    reveal_strlit("cover_image");
    reveal_strlit("social_image");
    reveal_strlit("canonical_url");
    reveal_strlit("created_at");
    reveal_strlit("edited_at");
    reveal_strlit("crossposted_at");
    reveal_strlit("published_at");
    reveal_strlit("last_comment_at");
    reveal_strlit("reading_time_minutes");
    reveal_strlit("tag_list");
    reveal_strlit("tags");
    reveal_strlit("user");
    assert(("type_of"@).len() == 7);
    assert(("id"@).len() == 2);
    assert(("title"@).len() == 5);
    assert(("description"@).len() == 11);
    assert(("readable_publish_date"@).len() == 21);
    assert(("slug"@).len() == 4);
    assert(("path"@).len() == 4);
    assert(("url"@).len() == 3);
    assert(("comments_count"@).len() == 14);
    assert(("public_reactions_count"@).len() == 22);
    assert(("collection_id"@).len() == 13);
    assert(("published_timestamp"@).len() == 19);
    assert(("positive_reactions_count"@).len() == 24);
    assert(("cover_image"@).len() == 11);
    assert(("social_image"@).len() == 12);
    assert(("canonical_url"@).len() == 13);
    assert(("created_at"@).len() == 10);
    assert(("edited_at"@).len() == 9);
    assert(("crossposted_at"@).len() == 14);
    assert(("published_at"@).len() == 12);
    assert(("last_comment_at"@).len() == 15);
    assert(("reading_time_minutes"@).len() == 20);
    assert(("tag_list"@).len() == 8);
    assert(("tags"@).len() == 4);
    assert(("user"@).len() == 4);
    assert(("slug"@)[0] == 's');
    assert(("path"@)[0] == 'p');
    assert(("tags"@)[0] == 't');
    assert(("user"@)[0] == 'u');
    assert(("description"@)[0] == 'd');
    assert(("cover_image"@)[0] == 'c');
    assert(("comments_count"@)[1] == 'o');
    assert(("crossposted_at"@)[1] == 'r');
    assert(("collection_id"@)[1] == 'o');
    assert(("canonical_url"@)[1] == 'a');
    assert(("social_image"@)[0] == 's');
    assert(("published_at"@)[0] == 'p');
    lemma_user_roundtrip(a.user);
    assert(a.tag_list.map_values(|s: Seq<char>| JScalarV::Str(s)).map_values(|s: JScalarV| s->Str_0)
        =~= a.tag_list);
    assert(article_of_obj(article_obj(a)) =~= a);
}

} // verus!
