//! The envelope that the service answers with, and the verdict on it.

use vstd::prelude::*;
use crate::article::Article;
use crate::article::ArticleView;
use crate::errors::map_response_error;
use crate::errors::rejection_reason;
use crate::errors::text_of;
use crate::errors::NewsAPIError;

verus! {

/// What a `NewAPIResponse` holds.
pub struct ResponseView {
    pub status: Seq<char>,
    pub code: Option<Seq<char>>,
    pub articles: Seq<ArticleView>,
}

/// The answer of the service: a status, an error code where the status is
/// not `ok`, and the articles.
#[derive(Debug, PartialEq, Eq)]
pub struct NewAPIResponse {
    articles: Vec<Article>,
    status: String,
    code: Option<String>,
}

/// A run of articles as what each of them holds.
pub open spec fn articles_of(articles: Seq<Article>) -> Seq<ArticleView> {
    articles.map_values(|article: Article| article@)
}

impl View for NewAPIResponse {
    type V = ResponseView;

    closed spec fn view(&self) -> ResponseView {
        ResponseView {
            status: self.status@,
            code: text_of(self.code),
            articles: articles_of(self.articles@),
        }
    }
}

impl NewAPIResponse {
    /// An envelope with the given status, error code and articles.
    pub fn new(status: String, code: Option<String>, articles: Vec<Article>) -> (response:
        NewAPIResponse)
        ensures
            response@ == (ResponseView {
                status: status@,
                code: text_of(code),
                articles: articles_of(articles@),
            }),
    {
        NewAPIResponse { articles, status, code }
    }

    /// The articles, in the order in which the service sent them.
    pub fn articles(&self) -> (articles: &Vec<Article>)
        ensures
            articles_of(articles@) == self@.articles,
    {
        &self.articles
    }

    /// The status that the service reported.
    pub fn status(&self) -> (status: &String)
        ensures
            status@ == self@.status,
    {
        &self.status
    }

    /// The error code, if the service sent one.
    pub fn code(&self) -> (code: &Option<String>)
        ensures
            text_of(*code) == self@.code,
    {
        &self.code
    }

    /// Whether the service accepted the request.
    pub open spec fn accepted(self) -> bool {
        self@.status == "ok"@
    }

    /// The verdict on the envelope: the envelope itself where the status is
    /// `ok`, and otherwise the rejection that its error code stands for.
    pub fn into_result(self) -> (verdict: Result<NewAPIResponse, NewsAPIError>)
        ensures
            match verdict {
                Ok(response) => self.accepted() && response == self,
                Err(NewsAPIError::BadRequest(reason)) => !self.accepted() && reason@
                    == rejection_reason(self@.code),
                Err(_) => false,
            },
    {
        let ok: String = "ok".to_owned();
        if self.status.eq(&ok) {
            Ok(self)
        } else {
            Err(map_response_error(&self.code))
        }
    }
}

} // verus!
