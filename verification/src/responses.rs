//! Interpreting the responses of the article endpoints.
//!
//! A response is a status code and a body. A non-success status is an
//! error, whatever the body holds: a missing resource surfaces as
//! `ApiError::Status`, never as an empty value. A success status yields
//! the decoded payload, or `ApiError::Decode` when the body is not a
//! well-formed article payload.

use vstd::prelude::*;

use crate::articles::{Article, ArticleV, article_from_obj, article_of_obj, obj_is_article};
use crate::json::JObj;
use crate::text::{spec_article_doc, spec_articles_doc, parse_article_text, parse_articles_text};

verus! {

/// An error from an endpoint call, as the response shows it.
#[derive(Debug, PartialEq, Eq, Structural)]
pub enum ApiError {
    /// The response carried a non-success HTTP status: the code.
    Status(u16),
    /// The response body does not decode as the endpoint's payload.
    Decode,
}

/// A status code that counts as success.
pub open spec fn spec_is_success(status: int) -> bool {
    200 <= status < 300
}

/// The article a body describes: its text must be one article object, and
/// that object must have the article shape.
pub open spec fn spec_article_of_body(s: Seq<char>) -> Option<ArticleV> {
    match spec_article_doc(s) {
        Some(o) => if obj_is_article(o) {
            Some(article_of_obj(o))
        } else {
            None::<ArticleV>
        },
        None => None::<ArticleV>,
    }
}

/// The articles a body describes: its text must be an array of article
/// objects, every one of the article shape.
pub open spec fn spec_articles_of_body(s: Seq<char>) -> Option<Seq<ArticleV>> {
    match spec_articles_doc(s) {
        Some(objs) => if forall|i: int| 0 <= i < objs.len() ==> obj_is_article(#[trigger] objs[i]) {
            Some(objs.map_values(|o: Seq<(Seq<char>, crate::json::JItemV)>| article_of_obj(o)))
        } else {
            None::<Seq<ArticleV>>
        },
        None => None::<Seq<ArticleV>>,
    }
}

/// Decodes one article from a response body, exactly as
/// `spec_article_of_body` states it.
pub fn decode_article(body: &str) -> (r: Option<Article>)
    ensures
        r is Some == spec_article_of_body(body@) is Some,
        r matches Some(a) ==> spec_article_of_body(body@) == Some(a@),
{
    let chars = crate::json::str_to_chars(body);
    match parse_article_text(&chars) {
        Some(o) => article_from_obj(&o),
        None => None,
    }
}

/// Decodes an article list from a response body, exactly as
/// `spec_articles_of_body` states it.
pub fn decode_articles(body: &str) -> (r: Option<Vec<Article>>)
    ensures
        r is Some == spec_articles_of_body(body@) is Some,
        r matches Some(v) ==> spec_articles_of_body(body@)
            == Some(v@.map_values(|a: Article| a@)),
{
    let chars = crate::json::str_to_chars(body);
    match parse_articles_text(&chars) {
        Some(objs) => {
            let ghost ov = objs@.map_values(|o: JObj| o@);
            let n = objs.len();
            let mut out: Vec<Article> = Vec::new();
            let mut i: usize = 0;
            while i < n
                invariant
                    n == objs@.len(),
                    i <= n,
                    ov == objs@.map_values(|o: JObj| o@),
                    spec_articles_doc(chars@) == Some(ov),
                    chars@ == body@,
                    out@.len() == i,
                    forall|j: int| 0 <= j < i ==> obj_is_article(#[trigger] ov[j])
                        && out@[j]@ == article_of_obj(ov[j]),
                decreases n - i,
            {
                proof {
                    assert(ov[i as int] == objs@[i as int]@);
                }
                match article_from_obj(&objs[i]) {
                    Some(a) => {
                        out.push(a);
                    },
                    None => {
                        return None;
                    },
                }
                i += 1;
            }
            proof {
                assert(out@.map_values(|a: Article| a@) =~= ov.map_values(
                    |o: Seq<(Seq<char>, crate::json::JItemV)>| article_of_obj(o),
                ));
            }
            Some(out)
        },
        None => None,
    }
}

/// Interprets a response of the article list endpoint: a non-success
/// status is an error carrying the code; a success status yields the
/// decoded articles, or a decode error when the body is not a well-formed
/// payload.
pub fn articles_from_response(status: u16, body: &str) -> (r: Result<Vec<Article>, ApiError>)
    ensures
        !spec_is_success(status as int) ==> r == Err::<Vec<Article>, ApiError>(
            ApiError::Status(status),
        ),
        spec_is_success(status as int) ==> match spec_articles_of_body(body@) {
            Some(arts) => r matches Ok(v) && v@.map_values(|a: Article| a@) == arts,
            None => r == Err::<Vec<Article>, ApiError>(ApiError::Decode),
        },
{
    if !(200 <= status && status < 300) {
        return Err(ApiError::Status(status));
    }
    match decode_articles(body) {
        Some(v) => Ok(v),
        None => Err(ApiError::Decode),
    }
}

/// Interprets a response of the by-id endpoint: a non-success status is an
/// error carrying the code — a missing resource never turns into a value —
/// and a success status yields the decoded article, or a decode error.
pub fn article_from_response(status: u16, body: &str) -> (r: Result<Article, ApiError>)
    ensures
        !spec_is_success(status as int) ==> r == Err::<Article, ApiError>(
            ApiError::Status(status),
        ),
        spec_is_success(status as int) ==> match spec_article_of_body(body@) {
            Some(a) => r matches Ok(x) && x@ == a,
            None => r == Err::<Article, ApiError>(ApiError::Decode),
        },
{
    if !(200 <= status && status < 300) {
        return Err(ApiError::Status(status));
    }
    match decode_article(body) {
        Some(a) => Ok(a),
        None => Err(ApiError::Decode),
    }
}

} // verus!
