//! A news article and the source that published it.

use vstd::prelude::*;
use crate::errors::text_of;

verus! {

/// What a `Source` holds.
pub struct SourceView {
    pub id: Seq<char>,
    pub name: Seq<char>,
    pub description: Seq<char>,
    pub url: Seq<char>,
    pub category: Seq<char>,
    pub language: Seq<char>,
    pub country: Seq<char>,
}

/// The publisher of an article.
#[derive(Debug, PartialEq, Eq)]
pub struct Source {
    id: String,
    name: String,
    description: String,
    url: String,
    category: String,
    language: String,
    country: String,
}

impl View for Source {
    type V = SourceView;

    closed spec fn view(&self) -> SourceView {
        SourceView {
            id: self.id@,
            name: self.name@,
            description: self.description@,
            url: self.url@,
            category: self.category@,
            language: self.language@,
            country: self.country@,
        }
    }
}

impl Source {
    /// A source with the given particulars.
    pub fn new(
        id: String,
        name: String,
        description: String,
        url: String,
        category: String,
        language: String,
        country: String,
    ) -> (source: Source)
        ensures
            source@ == (SourceView {
                id: id@,
                name: name@,
                description: description@,
                url: url@,
                category: category@,
                language: language@,
                country: country@,
            }),
    {
        Source { id, name, description, url, category, language, country }
    }

    /// The identifier of the source.
    pub fn id(&self) -> (id: &str)
        ensures
            id@ == self@.id,
    {
        self.id.as_str()
    }

    /// The name under which the source is shown.
    pub fn name(&self) -> (name: &str)
        ensures
            name@ == self@.name,
    {
        self.name.as_str()
    }

    /// What the source says of itself.
    pub fn description(&self) -> (description: &str)
        ensures
            description@ == self@.description,
    {
        self.description.as_str()
    }

    /// The address of the source.
    pub fn url(&self) -> (url: &str)
        ensures
            url@ == self@.url,
    {
        self.url.as_str()
    }

    /// The category of news that the source publishes.
    pub fn category(&self) -> (category: &str)
        ensures
            category@ == self@.category,
    {
        self.category.as_str()
    }

    /// The language that the source writes in.
    pub fn language(&self) -> (language: &str)
        ensures
            language@ == self@.language,
    {
        self.language.as_str()
    }

    /// The country that the source is based in.
    pub fn country(&self) -> (country: &str)
        ensures
            country@ == self@.country,
    {
        self.country.as_str()
    }
}

/// What an `Article` holds.
pub struct ArticleView {
    pub title: Seq<char>,
    pub url: Seq<char>,
    pub description: Option<Seq<char>>,
    pub author: Option<Seq<char>>,
    pub source: Option<SourceView>,
    pub url_to_image: Option<Seq<char>>,
    pub published_at: Option<Seq<char>>,
    pub content: Option<Seq<char>>,
}

/// A news article. Title and address are always there; the rest is there
/// where the service sent it.
#[derive(Debug, PartialEq, Eq)]
pub struct Article {
    title: String,
    url: String,
    description: Option<String>,
    author: Option<String>,
    source: Option<Source>,
    url_to_image: Option<String>,
    published_at: Option<String>,
    content: Option<String>,
}

/// A borrowed optional text as the characters it holds.
pub open spec fn borrowed_text(text: Option<&String>) -> Option<Seq<char>> {
    match text {
        Some(text) => Some(text@),
        None => None,
    }
}

/// An optional source as what it holds.
pub open spec fn source_of(source: Option<Source>) -> Option<SourceView> {
    match source {
        Some(source) => Some(source@),
        None => None,
    }
}

/// A borrowed optional source as what it holds.
pub open spec fn borrowed_source(source: Option<&Source>) -> Option<SourceView> {
    match source {
        Some(source) => Some(source@),
        None => None,
    }
}

impl View for Article {
    type V = ArticleView;

    closed spec fn view(&self) -> ArticleView {
        ArticleView {
            title: self.title@,
            url: self.url@,
            description: text_of(self.description),
            author: text_of(self.author),
            source: source_of(self.source),
            url_to_image: text_of(self.url_to_image),
            published_at: text_of(self.published_at),
            content: text_of(self.content),
        }
    }
}

impl Article {
    /// An article with the given title and address and whatever else is
    /// known of it.
    pub fn new(
        title: String,
        url: String,
        description: Option<String>,
        author: Option<String>,
        source: Option<Source>,
        url_to_image: Option<String>,
        published_at: Option<String>,
        content: Option<String>,
    ) -> (article: Article)
        ensures
            article@ == (ArticleView {
                title: title@,
                url: url@,
                description: text_of(description),
                author: text_of(author),
                source: source_of(source),
                url_to_image: text_of(url_to_image),
                published_at: text_of(published_at),
                content: text_of(content),
            }),
    {
        Article { title, url, description, author, source, url_to_image, published_at, content }
    }

    /// The headline.
    pub fn title(&self) -> (title: &str)
        ensures
            title@ == self@.title,
    {
        self.title.as_str()
    }

    /// The address at which the article can be read.
    pub fn url(&self) -> (url: &str)
        ensures
            url@ == self@.url,
    {
        self.url.as_str()
    }

    /// A summary of the article, if there is one.
    pub fn description(&self) -> (description: Option<&String>)
        ensures
            borrowed_text(description) == self@.description,
    {
        self.description.as_ref()
    }

    /// A summary of the article, if there is one.
    pub fn desc(&self) -> (description: Option<&String>)
        ensures
            borrowed_text(description) == self@.description,
    {
        self.description()
    }

    /// Who wrote the article, if that is known.
    pub fn author(&self) -> (author: Option<&String>)
        ensures
            borrowed_text(author) == self@.author,
    {
        self.author.as_ref()
    }

    /// Who published the article, if that is known.
    pub fn source(&self) -> (source: Option<&Source>)
        ensures
            borrowed_source(source) == self@.source,
    {
        self.source.as_ref()
    }

    /// The address of a picture that goes with the article, if there is one.
    pub fn url_to_image(&self) -> (url: Option<&String>)
        ensures
            borrowed_text(url) == self@.url_to_image,
    {
        self.url_to_image.as_ref()
    }

    /// When the article was published, as the service wrote it.
    pub fn published_at(&self) -> (time: Option<&String>)
        ensures
            borrowed_text(time) == self@.published_at,
    {
        self.published_at.as_ref()
    }

    /// The beginning of the article's text, if the service sent it.
    pub fn content(&self) -> (content: Option<&String>)
        ensures
            borrowed_text(content) == self@.content,
    {
        self.content.as_ref()
    }
}

} // verus!
