//! Addresses: the URL a client connects to and the socket address a server
//! listens on.

use url::Url;
use vstd::prelude::*;

verus! {

/// What the `url` crate's parser makes of `text`, read as an absolute URL:
/// the URL in its serialized form, or the parser's message where `text` is
/// no such URL.
pub uninterp spec fn url_parse(text: Seq<char>) -> Result<Seq<char>, Seq<char>>;

/// `Url::parse` on `text`. The parser reads nothing but its argument. An
/// accepted URL is handed back as its serialization (`String::from`), a
/// rejected one as the text that the parser's error displays.
#[verifier::external_body]
fn parse_url(text: &str) -> (parsed: Result<String, String>)
    ensures
        match parsed {
            Ok(url) => url_parse(text@) == Ok::<Seq<char>, Seq<char>>(url@),
            Err(reason) => url_parse(text@) == Err::<Seq<char>, Seq<char>>(reason@),
        },
{
    match Url::parse(text) {
        Ok(url) => Ok(String::from(url)),
        Err(error) => Err(error.to_string()),
    }
}

/// The address of a server, as an absolute URL in serialized form.
#[derive(Debug, PartialEq, Eq)]
pub struct Endpoint {
    url: String,
}

impl View for Endpoint {
    type V = Seq<char>;

    closed spec fn view(&self) -> Seq<char> {
        self.url@
    }
}

/// Why a text is no address to connect to.
#[derive(Debug, PartialEq, Eq)]
pub enum AddressError {
    /// The text is no absolute URL; the parser's message says why.
    InvalidUrl(String),
}

impl Endpoint {
    /// The URL in serialized form.
    pub fn as_str(&self) -> (url: &str)
        ensures
            url@ == self@,
    {
        self.url.as_str()
    }

    /// Makes an endpoint of what the URL parser answered: the endpoint of
    /// the URL that it accepted, or the error that carries its message.
    pub fn from_parsed(parsed: Result<String, String>) -> (endpoint: Result<Endpoint, AddressError>)
        ensures
            match parsed {
                Ok(url) => endpoint is Ok && endpoint->Ok_0@ == url@,
                Err(reason) => endpoint matches Err(AddressError::InvalidUrl(why)) && why@ == reason@,
            },
    {
        match parsed {
            Ok(url) => Ok(Endpoint { url }),
            Err(reason) => Err(AddressError::InvalidUrl(reason)),
        }
    }

    /// Reads `text` as an absolute URL.
    pub fn parse(text: &str) -> (endpoint: Result<Endpoint, AddressError>)
        ensures
            match url_parse(text@) {
                Ok(url) => endpoint is Ok && endpoint->Ok_0@ == url,
                Err(reason) => endpoint matches Err(AddressError::InvalidUrl(why)) && why@ == reason,
            },
    {
        Endpoint::from_parsed(parse_url(text))
    }
}

impl AddressError {
    /// The line that reports this error: the parser's message.
    pub fn message(&self) -> (text: &str)
        ensures
            self matches AddressError::InvalidUrl(why) && text@ == why@,
    {
        match self {
            AddressError::InvalidUrl(why) => why.as_str(),
        }
    }
}

/// The socket address of a listener on `port`, on every interface.
pub open spec fn bind_text(port: Seq<char>) -> Seq<char> {
    "0.0.0.0:"@ + port
}

/// The socket address that a server listening on `port` binds to.
pub fn bind_address(port: &str) -> (address: String)
    ensures
        address@ == bind_text(port@),
{
    let mut address = String::from_str("0.0.0.0:");
    address.append(port);
    address
}

} // verus!
