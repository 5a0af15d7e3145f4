//! The endpoint scenarios, run against canned responses: the request the
//! client would send, and the decoding of the body a server would return.

use devto_api::requests::ArticlesQuery;
use devto_api::responses::{article_from_response, articles_from_response};
use devto_api::{Client, ClientExt};

const ARTICLES_BODY: &str = r#"[
    {
        "type_of": "article",
        "id": 123,
        "title": "Test Article",
        "description": "A test article",
        "readable_publish_date": "Jan 1",
        "slug": "test-article-123",
        "path": "/testuser/test-article-123",
        "url": "https://dev.to/testuser/test-article-123",
        "comments_count": 5,
        "public_reactions_count": 10,
        "collection_id": null,
        "published_timestamp": "2024-01-01T00:00:00Z",
        "positive_reactions_count": 10,
        "cover_image": null,
        "social_image": "https://dev.to/social.png",
        "canonical_url": "https://dev.to/testuser/test-article-123",
        "created_at": "2024-01-01T00:00:00Z",
        "edited_at": null,
        "crossposted_at": null,
        "published_at": "2024-01-01T00:00:00Z",
        "last_comment_at": "2024-01-01T12:00:00Z",
        "reading_time_minutes": 3,
        "tag_list": ["rust", "programming"],
        "tags": "rust, programming",
        "user": {
            "name": "Test User",
            "username": "testuser",
            "twitter_username": null,
            "github_username": "testuser",
            "user_id": 1,
            "website_url": null,
            "profile_image": "https://dev.to/avatar.png",
            "profile_image_90": "https://dev.to/avatar90.png"
        }
    }
]"#;

const ARTICLE_BODY: &str = r#"{
    "type_of": "article",
    "id": 456,
    "title": "Detailed Article",
    "description": "An article with full details",
    "readable_publish_date": "Feb 15",
    "slug": "detailed-article-456",
    "path": "/author/detailed-article-456",
    "url": "https://dev.to/author/detailed-article-456",
    "comments_count": 20,
    "public_reactions_count": 100,
    "collection_id": null,
    "published_timestamp": "2024-02-15T10:30:00Z",
    "positive_reactions_count": 95,
    "cover_image": "https://dev.to/cover.png",
    "social_image": "https://dev.to/social.png",
    "canonical_url": "https://dev.to/author/detailed-article-456",
    "created_at": "2024-02-14T08:00:00Z",
    "edited_at": "2024-02-15T09:00:00Z",
    "crossposted_at": null,
    "published_at": "2024-02-15T10:30:00Z",
    "last_comment_at": "2024-02-16T14:00:00Z",
    "reading_time_minutes": 8,
    "tag_list": ["webdev", "tutorial"],
    "tags": "webdev, tutorial",
    "user": {
        "name": "Article Author",
        "username": "author",
        "twitter_username": "author_twitter",
        "github_username": "author_github",
        "user_id": 42,
        "website_url": "https://author.com",
        "profile_image": "https://dev.to/author.png",
        "profile_image_90": "https://dev.to/author90.png"
    }
}"#;

#[test]
fn test_get_articles() {
    let client = Client::new("http://127.0.0.1:5000/api").unwrap();
    let mut q = ArticlesQuery::none();
    q.per_page = Some(10);
    let req = client.get_articles_request(&q);
    assert_eq!(req.method, "GET");
    assert_eq!(req.url, "http://127.0.0.1:5000/api/articles");
    assert_eq!(req.query, vec![("per_page".to_string(), "10".to_string())]);

    let articles = articles_from_response(200, ARTICLES_BODY).unwrap();
    assert_eq!(articles.len(), 1);
    assert_eq!(articles[0].id, 123);
    assert_eq!(articles[0].title, "Test Article");
}

#[test]
fn test_get_article_by_id() {
    let client = Client::new("http://127.0.0.1:5000/api").unwrap();
    let req = client.get_article_by_id_request(456);
    assert_eq!(req.method, "GET");
    assert_eq!(req.url, "http://127.0.0.1:5000/api/articles/456");
    assert!(req.query.is_empty());

    let article = article_from_response(200, ARTICLE_BODY).unwrap();
    assert_eq!(article.id, 456);
    assert_eq!(article.title, "Detailed Article");
    assert_eq!(article.reading_time_minutes, 8);
}

#[test]
fn test_api_error_handling() {
    let result = article_from_response(404, r#"{"error": "not found", "status": 404}"#);
    assert!(result.is_err());
}

#[test]
fn full_article_fields_decoded() {
    let article = article_from_response(200, ARTICLE_BODY).unwrap();
    assert_eq!(article.type_of, "article");
    assert_eq!(article.description, "An article with full details");
    assert_eq!(article.slug, "detailed-article-456");
    assert_eq!(article.comments_count, 20);
    assert_eq!(article.public_reactions_count, 100);
    assert_eq!(article.collection_id, None);
    assert_eq!(article.positive_reactions_count, 95);
    assert_eq!(article.cover_image.as_deref(), Some("https://dev.to/cover.png"));
    assert_eq!(article.edited_at.as_deref(), Some("2024-02-15T09:00:00Z"));
    assert_eq!(article.crossposted_at, None);
    assert_eq!(article.tag_list, vec!["webdev".to_string(), "tutorial".to_string()]);
    assert_eq!(article.tags, "webdev, tutorial");
    assert_eq!(article.user.name.as_deref(), Some("Article Author"));
    assert_eq!(article.user.username, "author");
    assert_eq!(article.user.twitter_username.as_deref(), Some("author_twitter"));
    assert_eq!(article.user.user_id, 42);
    assert_eq!(article.user.profile_image_90, "https://dev.to/author90.png");
}

#[test]
fn error_statuses_never_yield_values() {
    for status in [100u16, 199, 300, 301, 400, 404, 500, 503] {
        let r = article_from_response(status, ARTICLE_BODY);
        assert_eq!(r, Err(devto_api::ApiError::Status(status)));
        let r = articles_from_response(status, ARTICLES_BODY);
        assert_eq!(r, Err(devto_api::ApiError::Status(status)));
    }
}

#[test]
fn malformed_body_is_a_decode_error() {
    assert_eq!(
        article_from_response(200, "not json"),
        Err(devto_api::ApiError::Decode)
    );
    assert_eq!(
        articles_from_response(200, r#"{"not": "an array"}"#),
        Err(devto_api::ApiError::Decode)
    );
    // A success status with a body missing required members.
    assert_eq!(
        article_from_response(200, r#"{"id": 1}"#),
        Err(devto_api::ApiError::Decode)
    );
}

#[test]
fn authenticated_client_attaches_credential() {
    let client = Client::devto("sample-api-key").unwrap();
    let req = client.get_articles_request(&ArticlesQuery::none());
    assert_eq!(
        req.headers,
        vec![("api-key".to_string(), "sample-api-key".to_string())]
    );
    let req2 = client.get_article_by_id_request(7);
    assert_eq!(
        req2.headers,
        vec![("api-key".to_string(), "sample-api-key".to_string())]
    );
}

#[test]
fn public_client_sends_no_credential() {
    let client = Client::devto_public().unwrap();
    assert_eq!(client.base_url(), "https://dev.to/api");
    let req = client.get_articles_request(&ArticlesQuery::none());
    assert!(req.headers.is_empty());
}

#[test]
fn invalid_credential_is_rejected_at_construction() {
    let err = Client::devto("bad\nkey").unwrap_err();
    match err {
        devto_api::DevtoClientError::InvalidUrl(m) => {
            assert_eq!(m, "Invalid API key format");
        }
        _ => panic!("expected an invalid-credential error"),
    }
    assert!(Client::forem("https://community.example.com/api", "\u{7f}").is_err());
}

#[test]
fn forem_targets_the_custom_base_url() {
    let client = Client::forem("https://community.example.com/api", "k").unwrap();
    assert_eq!(client.base_url(), "https://community.example.com/api");
    let req = client.get_article_by_id_request(1);
    assert_eq!(req.url, "https://community.example.com/api/articles/1");
}
