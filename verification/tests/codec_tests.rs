//! The codec and parser, exercised on concrete values: the round trip of
//! an article through its JSON object, and the edges of the grammar.

use devto_api::articles::{article_from_obj, article_to_obj};
use devto_api::requests::ArticlesQuery;
use devto_api::responses::{article_from_response, decode_article, decode_articles};
use devto_api::{Article, Client, User};

fn sample_article() -> Article {
    Article {
        type_of: "article".to_string(),
        id: 123,
        title: "A \"quoted\" title".to_string(),
        description: "desc".to_string(),
        readable_publish_date: "Jan 1".to_string(),
        slug: "a-123".to_string(),
        path: "/u/a-123".to_string(),
        url: "https://dev.to/u/a-123".to_string(),
        comments_count: 5,
        public_reactions_count: 10,
        collection_id: Some(9),
        published_timestamp: "2024-01-01T00:00:00Z".to_string(),
        positive_reactions_count: 10,
        cover_image: None,
        social_image: "https://dev.to/s.png".to_string(),
        canonical_url: "https://dev.to/u/a-123".to_string(),
        created_at: "2024-01-01T00:00:00Z".to_string(),
        edited_at: None,
        crossposted_at: Some("2024-01-02T00:00:00Z".to_string()),
        published_at: "2024-01-01T00:00:00Z".to_string(),
        last_comment_at: "2024-01-01T12:00:00Z".to_string(),
        reading_time_minutes: 3,
        tag_list: vec!["rust".to_string(), "programming".to_string()],
        tags: "rust, programming".to_string(),
        user: User {
            name: None,
            username: "u".to_string(),
            twitter_username: None,
            github_username: Some("u".to_string()),
            user_id: 1,
            website_url: None,
            profile_image: "https://dev.to/a.png".to_string(),
            profile_image_90: "https://dev.to/a90.png".to_string(),
        },
    }
}

#[test]
fn article_roundtrips_through_its_object() {
    let a = sample_article();
    let obj = article_to_obj(&a);
    let back = article_from_obj(&obj).unwrap();
    assert_eq!(back, a);
}

#[test]
fn decoder_reads_string_escapes() {
    let body = r#"{
        "type_of": "article", "id": 1,
        "title": "Line\none \"two\"\t\\",
        "description": "d", "readable_publish_date": "r", "slug": "s",
        "path": "p", "url": "u", "comments_count": 0,
        "public_reactions_count": 0, "collection_id": null,
        "published_timestamp": "t", "positive_reactions_count": 0,
        "cover_image": null, "social_image": "si", "canonical_url": "cu",
        "created_at": "c", "edited_at": null, "crossposted_at": null,
        "published_at": "p", "last_comment_at": "l",
        "reading_time_minutes": 0, "tag_list": [], "tags": "",
        "user": {"name": null, "username": "u", "twitter_username": null,
                 "github_username": null, "user_id": 0, "website_url": null,
                 "profile_image": "pi", "profile_image_90": "pi90"}
    }"#;
    let a = decode_article(body).unwrap();
    assert_eq!(a.title, "Line\none \"two\"\t\\");
    assert!(a.tag_list.is_empty());
}

#[test]
fn decoder_ignores_unknown_members() {
    let body = r#"{
        "extra_flag": true, "extra_obj": {"x": 1}, "extra_arr": [1, 2],
        "type_of": "article", "id": 2, "title": "T",
        "description": "d", "readable_publish_date": "r", "slug": "s",
        "path": "p", "url": "u", "comments_count": 0,
        "public_reactions_count": 0, "collection_id": 4,
        "published_timestamp": "t", "positive_reactions_count": 0,
        "cover_image": null, "social_image": "si", "canonical_url": "cu",
        "created_at": "c", "edited_at": null, "crossposted_at": null,
        "published_at": "p", "last_comment_at": "l",
        "reading_time_minutes": 0, "tag_list": ["a"], "tags": "a",
        "user": {"name": "n", "username": "u", "twitter_username": null,
                 "github_username": null, "user_id": 0, "website_url": null,
                 "profile_image": "pi", "profile_image_90": "pi90"}
    }"#;
    let a = decode_article(body).unwrap();
    assert_eq!(a.id, 2);
    assert_eq!(a.collection_id, Some(4));
}

#[test]
fn decoder_rejects_wrong_member_types() {
    // The id must be a number that fits the field.
    let body = ARTICLE_TEMPLATE.replace("\"id\": 3", "\"id\": \"3\"");
    assert!(decode_article(&body).is_none());
    let body = ARTICLE_TEMPLATE.replace("\"id\": 3", "\"id\": -3");
    assert!(decode_article(&body).is_none());
    let body = ARTICLE_TEMPLATE.replace("\"id\": 3", "\"id\": 4294967296");
    assert!(decode_article(&body).is_none());
    // The largest id that still fits.
    let body = ARTICLE_TEMPLATE.replace("\"id\": 3", "\"id\": 4294967295");
    assert_eq!(decode_article(&body).unwrap().id, 4294967295);
}

const ARTICLE_TEMPLATE: &str = r#"{
    "type_of": "article", "id": 3, "title": "T",
    "description": "d", "readable_publish_date": "r", "slug": "s",
    "path": "p", "url": "u", "comments_count": 0,
    "public_reactions_count": 0, "collection_id": null,
    "published_timestamp": "t", "positive_reactions_count": 0,
    "cover_image": null, "social_image": "si", "canonical_url": "cu",
    "created_at": "c", "edited_at": null, "crossposted_at": null,
    "published_at": "p", "last_comment_at": "l",
    "reading_time_minutes": 0, "tag_list": [], "tags": "",
    "user": {"name": null, "username": "u", "twitter_username": null,
             "github_username": null, "user_id": 0, "website_url": null,
             "profile_image": "pi", "profile_image_90": "pi90"}
}"#;

#[test]
fn parser_handles_number_limits() {
    // Eighteen digits decode; nineteen are refused.
    let body = ARTICLE_TEMPLATE.replace("\"id\": 3", "\"id\": 999999999999999999");
    // The value itself no longer fits a u32 id, so decoding fails on range,
    // but the text is still well-formed: the failure is the member check.
    assert!(decode_article(&body).is_none());
    let body = ARTICLE_TEMPLATE.replace("\"id\": 3", "\"id\": 9999999999999999999");
    assert!(decode_article(&body).is_none());
}

#[test]
fn parser_rejects_trailing_text_and_control_chars() {
    let mut with_tail = ARTICLE_TEMPLATE.to_string();
    with_tail.push_str(" x");
    assert!(decode_article(&with_tail).is_none());
    let body = ARTICLE_TEMPLATE.replace("\"title\": \"T\"", "\"title\": \"a\u{1}b\"");
    assert!(decode_article(&body).is_none());
}

#[test]
fn duplicate_members_read_the_first() {
    let body = ARTICLE_TEMPLATE.replace("\"title\": \"T\"", "\"title\": \"first\", \"title\": \"second\"");
    assert_eq!(decode_article(&body).unwrap().title, "first");
}

#[test]
fn empty_article_list_decodes() {
    assert_eq!(decode_articles("  [ ]  ").unwrap(), vec![]);
    assert!(decode_articles("[,]").is_none());
}

#[test]
fn list_with_one_bad_element_is_refused() {
    let body = format!("[{}, {{\"id\": 1}}]", ARTICLE_TEMPLATE);
    assert!(decode_articles(&body).is_none());
}

#[test]
fn query_pairs_follow_the_parameters() {
    let client = Client::new("https://x.example/api").unwrap();
    let q = ArticlesQuery {
        collection_id: Some(99),
        page: Some(2),
        per_page: Some(30),
        state: Some("fresh".to_string()),
        tag: Some("rust".to_string()),
        tags: None,
        tags_exclude: None,
        top: Some(7),
        username: Some("me".to_string()),
    };
    let req = client.get_articles_request(&q);
    assert_eq!(
        req.query,
        vec![
            ("collection_id".to_string(), "99".to_string()),
            ("page".to_string(), "2".to_string()),
            ("per_page".to_string(), "30".to_string()),
            ("state".to_string(), "fresh".to_string()),
            ("tag".to_string(), "rust".to_string()),
            ("top".to_string(), "7".to_string()),
            ("username".to_string(), "me".to_string()),
        ]
    );
}

#[test]
fn decimal_formatting_is_exact() {
    let client = Client::new("b").unwrap();
    assert_eq!(client.get_article_by_id_request(0).url, "b/articles/0");
    assert_eq!(client.get_article_by_id_request(10).url, "b/articles/10");
    assert_eq!(
        client.get_article_by_id_request(4294967295).url,
        "b/articles/4294967295"
    );
}

#[test]
fn boundary_statuses_interpret_exactly() {
    assert!(article_from_response(200, ARTICLE_TEMPLATE).is_ok());
    assert!(article_from_response(299, ARTICLE_TEMPLATE).is_ok());
    assert!(article_from_response(199, ARTICLE_TEMPLATE).is_err());
    assert!(article_from_response(300, ARTICLE_TEMPLATE).is_err());
}
