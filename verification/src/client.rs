//! The client: what it was told, and the request that follows from it.

use vstd::prelude::*;
use crate::address::assemble_url;
use crate::address::asks;
use crate::address::assembled;
use crate::address::reports;
use crate::address::Assembly;
use crate::endpoint::Endpoint;
use crate::errors::NewsAPIError;
use crate::web::plain_query;

verus! {

/// The address under which the service is reached.
pub const BASE_URL: &'static str = "https://newsapi.org/v2";

/// The header that carries the API key.
pub const AUTHORIZATION: &'static str = "Authorization";

/// What a `NewsAPI` holds.
pub struct NewsAPIView {
    pub api_key: Seq<char>,
    pub endpoint: Endpoint,
    pub country: Seq<char>,
}

/// A client of the service. It is made with an API key, asks for the top
/// headlines of the United States unless told otherwise, and can be told
/// otherwise between any two requests.
pub struct NewsAPI {
    api_key: String,
    endpoint: Endpoint,
    country: String,
}

/// What a `Request` holds.
pub struct RequestView {
    pub url: Seq<char>,
    pub authorization: Seq<char>,
}

/// One `GET` request to the service: its address, and the API key that goes
/// into its `Authorization` header.
#[derive(Debug, PartialEq, Eq)]
pub struct Request {
    url: String,
    authorization: String,
}

impl View for Request {
    type V = RequestView;

    closed spec fn view(&self) -> RequestView {
        RequestView { url: self.url@, authorization: self.authorization@ }
    }
}

impl Request {
    /// The address to send the request to.
    pub fn url(&self) -> (url: &str)
        ensures
            url@ == self@.url,
    {
        self.url.as_str()
    }

    /// The name of the header that authenticates the request.
    pub fn header_name(&self) -> (name: &'static str)
        ensures
            name@ == AUTHORIZATION@,
    {
        AUTHORIZATION
    }

    /// The value of that header: the API key as it was given.
    pub fn header_value(&self) -> (value: &str)
        ensures
            value@ == self@.authorization,
    {
        self.authorization.as_str()
    }
}

impl View for NewsAPI {
    type V = NewsAPIView;

    closed spec fn view(&self) -> NewsAPIView {
        NewsAPIView { api_key: self.api_key@, endpoint: self.endpoint, country: self.country@ }
    }
}

impl NewsAPI {
    /// A client with the given API key, which is not looked at here.
    pub fn new(api_key: &str) -> (client: NewsAPI)
        ensures
            client@ == (NewsAPIView {
                api_key: api_key@,
                endpoint: Endpoint::TopHeadline,
                country: "us"@,
            }),
    {
        NewsAPI {
            api_key: api_key.to_owned(),
            endpoint: Endpoint::TopHeadline,
            country: "us".to_owned(),
        }
    }

    /// Tells the client which endpoint to ask from now on.
    pub fn endpoint(&mut self, endpoint: Endpoint) -> (client: &mut NewsAPI)
        ensures
            (*client)@ == (NewsAPIView { endpoint, ..old(self)@ }),
            *final(self) == *final(client),
    {
        self.endpoint = endpoint;
        self
    }

    /// Tells the client which country to ask about from now on. Any text
    /// is taken; the service decides what it makes of it.
    pub fn country(&mut self, country: &str) -> (client: &mut NewsAPI)
        ensures
            (*client)@ == (NewsAPIView { country: country@, ..old(self)@ }),
            *final(self) == *final(client),
    {
        self.country = country.to_owned();
        self
    }

    /// The address of the request that the client would send now.
    pub open spec fn address(self) -> Assembly {
        assembled(BASE_URL@, self@.endpoint, self@.country)
    }

    /// Assembles the address of the request for the endpoint and the country
    /// that the client was last told.
    pub fn prepare_url(&self) -> (address: Result<String, NewsAPIError>)
        ensures
            reports(address, self.address()),
            match address {
                Ok(built) => plain_query(self@.country) ==> asks(
                    built@,
                    self@.endpoint,
                    self@.country,
                ),
                Err(_) => true,
            },
    {
        assemble_url(BASE_URL, self.endpoint, self.country.as_str())
    }

    /// The request that the client would send now: the address for its
    /// endpoint and country, and its API key for the header. The error, if
    /// no address can be assembled.
    pub fn request(&self) -> (request: Result<Request, NewsAPIError>)
        ensures
            match request {
                Ok(request) => {
                    &&& self.address() == Assembly::Built(request@.url)
                    &&& request@.authorization == self@.api_key
                    &&& plain_query(self@.country) ==> asks(
                        request@.url,
                        self@.endpoint,
                        self@.country,
                    )
                },
                Err(error) => !(self.address() is Built) && reports(
                    Err::<String, NewsAPIError>(error),
                    self.address(),
                ),
            },
    {
        match self.prepare_url() {
            Ok(url) => Ok(Request { url, authorization: self.api_key.clone() }),
            Err(error) => Err(error),
        }
    }
}

} // verus!
