use newsapi::Article;
use newsapi::NewAPIResponse;
use newsapi::Source;

fn example_source() -> Source {
    Source::new(
        "bbc-news".to_string(),
        "BBC News".to_string(),
        "News from the BBC".to_string(),
        "https://www.bbc.co.uk/news".to_string(),
        "general".to_string(),
        "en".to_string(),
        "gb".to_string(),
    )
}

#[test]
fn source_hands_out_what_it_was_made_with() {
    let source = example_source();
    assert_eq!(source.id(), "bbc-news");
    assert_eq!(source.name(), "BBC News");
    assert_eq!(source.description(), "News from the BBC");
    assert_eq!(source.url(), "https://www.bbc.co.uk/news");
    assert_eq!(source.category(), "general");
    assert_eq!(source.language(), "en");
    assert_eq!(source.country(), "gb");
}

#[test]
fn article_with_title_and_address_only() {
    let article = Article::new(
        "Title".to_string(),
        "https://example.org/a".to_string(),
        None,
        None,
        None,
        None,
        None,
        None,
    );
    assert_eq!(article.title(), "Title");
    assert_eq!(article.url(), "https://example.org/a");
    assert_eq!(article.description(), None);
    assert_eq!(article.desc(), None);
    assert_eq!(article.author(), None);
    assert_eq!(article.source(), None);
    assert_eq!(article.url_to_image(), None);
    assert_eq!(article.published_at(), None);
    assert_eq!(article.content(), None);
}

#[test]
fn article_with_everything() {
    let article = Article::new(
        "Title".to_string(),
        "https://example.org/a".to_string(),
        Some("Summary".to_string()),
        Some("Author".to_string()),
        Some(example_source()),
        Some("https://example.org/a.png".to_string()),
        Some("2024-05-06T07:08:09Z".to_string()),
        Some("Content".to_string()),
    );
    assert_eq!(article.title(), "Title");
    assert_eq!(article.url(), "https://example.org/a");
    assert_eq!(article.description(), Some(&"Summary".to_string()));
    assert_eq!(article.desc(), Some(&"Summary".to_string()));
    assert_eq!(article.author(), Some(&"Author".to_string()));
    assert_eq!(article.source(), Some(&example_source()));
    assert_eq!(article.url_to_image(), Some(&"https://example.org/a.png".to_string()));
    assert_eq!(article.published_at(), Some(&"2024-05-06T07:08:09Z".to_string()));
    assert_eq!(article.content(), Some(&"Content".to_string()));
}

#[test]
fn envelope_hands_out_what_it_was_made_with() {
    let first = Article::new("a".to_string(), "u".to_string(), None, None, None, None, None, None);
    let second = Article::new("b".to_string(), "v".to_string(), None, None, None, None, None, None);
    let response = NewAPIResponse::new(
        "error".to_string(),
        Some("sourcesTooMany".to_string()),
        vec![first, second],
    );
    assert_eq!(response.status(), "error");
    assert_eq!(response.code(), &Some("sourcesTooMany".to_string()));
    assert_eq!(response.articles().len(), 2);
    assert_eq!(response.articles()[0].title(), "a");
    assert_eq!(response.articles()[1].title(), "b");
}
