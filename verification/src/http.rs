//! Requests as values: what is to be sent, for the caller to send.

use crate::text::push_text;
use vstd::prelude::*;

verus! {

/// The method of a request.
#[derive(Debug, Clone, Copy, PartialEq, Eq, Structural)]
pub enum Method {
    Get,
    Post,
}

/// A name and a value, both as text: a header or a query parameter.
pub struct PairView {
    pub name: Seq<char>,
    pub value: Seq<char>,
}

/// A request, every part as text.
pub struct RequestView {
    pub method: Method,
    pub url: Seq<char>,
    pub query: Seq<PairView>,
    pub headers: Seq<PairView>,
    pub body: Option<Seq<char>>,
}

/// A header or a query parameter.
#[derive(Debug, Clone, PartialEq, Eq)]
pub struct Pair {
    pub name: String,
    pub value: String,
}

/// A request that the caller is to send. The query parameters are held as
/// they are, not yet encoded into the URL.
#[derive(Debug, Clone, PartialEq, Eq)]
pub struct Request {
    pub method: Method,
    pub url: String,
    pub query: Vec<Pair>,
    pub headers: Vec<Pair>,
    pub body: Option<String>,
}

impl View for Pair {
    type V = PairView;

    open spec fn view(&self) -> PairView {
        PairView { name: self.name@, value: self.value@ }
    }
}

impl View for Request {
    type V = RequestView;

    open spec fn view(&self) -> RequestView {
        RequestView {
            method: self.method,
            url: self.url@,
            query: self.query@.map_values(|p: Pair| p@),
            headers: self.headers@.map_values(|p: Pair| p@),
            body: match self.body {
                Some(body) => Some(body@),
                None => None,
            },
        }
    }
}

/// The pair of the two texts.
pub fn pair(name: &str, value: String) -> (p: Pair)
    ensures
        p@ == (PairView { name: name@, value: value@ }),
{
    Pair { name: name.to_owned(), value }
}

/// `text` as serde_json writes a JSON string: in double quotes, with what
/// JSON asks to be escaped written as an escape.
pub uninterp spec fn json_string(text: Seq<char>) -> Seq<char>;

/// Calls `to_string` on a `serde_json::Value::String`, which writes the
/// text as one JSON string.
#[verifier::external_body]
fn serde_json_string(text: &str) -> (json: String)
    ensures
        json@ == json_string(text@),
{
    serde_json::Value::String(text.to_owned()).to_string()
}

/// Appends `text` to `out` as a JSON string.
pub fn push_json_string(out: &mut String, text: &str)
    ensures
        final(out)@ == old(out)@ + json_string(text@),
{
    let json = serde_json_string(text);
    push_text(out, json.as_str());
}

/// `"Bearer "` and the token: the value of an authorization header.
pub open spec fn bearer(token: Seq<char>) -> Seq<char> {
    "Bearer "@ + token
}

/// The value of an authorization header for the token.
pub fn bearer_value(token: &str) -> (value: String)
    ensures
        value@ == bearer(token@),
{
    let mut value = String::new();
    push_text(&mut value, "Bearer ");
    push_text(&mut value, token);
    assert(value@ =~= bearer(token@));
    value
}

} // verus!
