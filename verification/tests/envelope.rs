use newsapi::Article;
use newsapi::NewAPIResponse;
use newsapi::NewsAPIError;
use newsapi::Source;
use serde_json::Value;

fn text(value: &Value, field: &str) -> Option<String> {
    value.get(field).and_then(Value::as_str).map(str::to_string)
}

fn source(value: &Value) -> Option<Source> {
    Some(Source::new(
        text(value, "id")?,
        text(value, "name")?,
        text(value, "description")?,
        text(value, "url")?,
        text(value, "category")?,
        text(value, "language")?,
        text(value, "country")?,
    ))
}

fn article(value: &Value) -> Option<Article> {
    Some(Article::new(
        text(value, "title")?,
        text(value, "url")?,
        text(value, "description"),
        text(value, "author"),
        value.get("source").and_then(source),
        text(value, "urlToImage"),
        text(value, "publishedAt"),
        text(value, "content"),
    ))
}

fn shape() -> NewsAPIError {
    NewsAPIError::ArticleParseFailed("unexpected shape".to_string())
}

// What a caller does with the body of an answer before the library judges it.
fn envelope(body: &str) -> Result<NewAPIResponse, NewsAPIError> {
    let value: Value = serde_json::from_str(body)
        .map_err(|e| NewsAPIError::ArticleParseFailed(e.to_string()))?;
    let status = text(&value, "status").ok_or_else(shape)?;
    let code = text(&value, "code");
    let mut articles = Vec::new();
    if let Some(list) = value.get("articles") {
        for item in list.as_array().ok_or_else(shape)? {
            articles.push(article(item).ok_or_else(shape)?);
        }
    }
    Ok(NewAPIResponse::new(status, code, articles))
}

fn fetched(body: &str) -> Result<NewAPIResponse, NewsAPIError> {
    envelope(body)?.into_result()
}

const TWO_ARTICLES: &str = r#"{
    "status": "ok",
    "articles": [
        {
            "title": "First",
            "url": "https://example.org/1",
            "description": "The first one"
        },
        {
            "source": {
                "id": "example",
                "name": "Example",
                "description": "An example",
                "url": "https://example.org",
                "category": "general",
                "language": "en",
                "country": "us"
            },
            "author": "A. Writer",
            "title": "Second",
            "url": "https://example.org/2",
            "urlToImage": "https://example.org/2.png",
            "publishedAt": "2024-01-02T03:04:05Z",
            "content": "The second one, at length"
        }
    ]
}"#;

#[test]
fn ok_envelope_with_two_articles_comes_back_whole() {
    let response = fetched(TWO_ARTICLES).unwrap();
    assert_eq!(response.status(), "ok");
    assert_eq!(response.code(), &None);
    let articles = response.articles();
    assert_eq!(articles.len(), 2);

    assert_eq!(articles[0].title(), "First");
    assert_eq!(articles[0].url(), "https://example.org/1");
    assert_eq!(articles[0].description(), Some(&"The first one".to_string()));
    assert_eq!(articles[0].desc(), Some(&"The first one".to_string()));
    assert_eq!(articles[0].author(), None);
    assert_eq!(articles[0].source(), None);
    assert_eq!(articles[0].url_to_image(), None);
    assert_eq!(articles[0].published_at(), None);
    assert_eq!(articles[0].content(), None);

    assert_eq!(articles[1].title(), "Second");
    assert_eq!(articles[1].url(), "https://example.org/2");
    assert_eq!(articles[1].description(), None);
    assert_eq!(articles[1].desc(), None);
    assert_eq!(articles[1].author(), Some(&"A. Writer".to_string()));
    assert_eq!(articles[1].url_to_image(), Some(&"https://example.org/2.png".to_string()));
    assert_eq!(articles[1].published_at(), Some(&"2024-01-02T03:04:05Z".to_string()));
    assert_eq!(articles[1].content(), Some(&"The second one, at length".to_string()));
    let source = articles[1].source().unwrap();
    assert_eq!(source.id(), "example");
    assert_eq!(source.name(), "Example");
    assert_eq!(source.description(), "An example");
    assert_eq!(source.url(), "https://example.org");
    assert_eq!(source.category(), "general");
    assert_eq!(source.language(), "en");
    assert_eq!(source.country(), "us");
}

#[test]
fn ok_envelope_is_handed_back_unchanged() {
    let before = envelope(TWO_ARTICLES).unwrap();
    let after = envelope(TWO_ARTICLES).unwrap().into_result();
    assert_eq!(after, Ok(before));
}

#[test]
fn disabled_key_is_a_rejection_without_articles() {
    let body = r#"{"status": "error", "code": "apiKeyDisable", "message": "disabled"}"#;
    assert_eq!(
        fetched(body),
        Err(NewsAPIError::BadRequest("Your API key has been disabled"))
    );
}

#[test]
fn rejection_drops_the_articles_that_came_with_it() {
    let body = r#"{"status": "error", "code": "apiKeyDisable",
        "articles": [{"title": "t", "url": "u"}]}"#;
    assert_eq!(envelope(body).unwrap().articles().len(), 1);
    assert_eq!(
        fetched(body),
        Err(NewsAPIError::BadRequest("Your API key has been disabled"))
    );
}

#[test]
fn other_error_codes_are_unknown_errors() {
    let body = r#"{"status": "error", "code": "rateLimited"}"#;
    assert_eq!(fetched(body), Err(NewsAPIError::BadRequest("Unknown error")));
}

#[test]
fn error_without_code_is_an_unknown_error() {
    let body = r#"{"status": "error"}"#;
    assert_eq!(fetched(body), Err(NewsAPIError::BadRequest("Unknown error")));
}

#[test]
fn status_is_compared_to_the_letter() {
    for status in ["OK", "ok ", "", "okay", "o"] {
        let response = NewAPIResponse::new(status.to_string(), None, Vec::new());
        assert_eq!(response.into_result(), Err(NewsAPIError::BadRequest("Unknown error")));
    }
}

#[test]
fn ok_status_wins_over_a_code() {
    let response = NewAPIResponse::new(
        "ok".to_string(),
        Some("apiKeyDisable".to_string()),
        Vec::new(),
    );
    let verdict = response.into_result().unwrap();
    assert_eq!(verdict.code(), &Some("apiKeyDisable".to_string()));
    assert!(verdict.articles().is_empty());
}

#[test]
fn malformed_body_is_a_deserialization_failure() {
    let verdict = fetched("{\"status\": \"ok\", \"articles\": [");
    assert!(matches!(verdict, Err(NewsAPIError::ArticleParseFailed(_))));
    assert!(!matches!(verdict, Err(NewsAPIError::BadRequest(_))));
    assert_eq!(verdict.unwrap_err().message(), "Failed parsing articles data");
}

#[test]
fn body_of_another_shape_is_a_deserialization_failure() {
    let verdict = fetched("[1, 2, 3]");
    assert!(matches!(verdict, Err(NewsAPIError::ArticleParseFailed(_))));
    let verdict = fetched(r#"{"status": "error", "code": "apiKeyDisable", "articles": 3}"#);
    assert!(matches!(verdict, Err(NewsAPIError::ArticleParseFailed(_))));
}
