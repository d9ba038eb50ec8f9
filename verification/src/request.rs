//! Descriptors of outbound calls.

use vstd::prelude::*;
use vstd::string::{StrSliceExecFns, StringExecFns};
use vstd::utf8::encode_utf8;

verus! {

/// The HTTP verb of a call.
#[derive(Debug, Clone, Copy, PartialEq, Eq)]
pub enum RequestMethod {
    Get,
    Post,
}

/// One part of a multipart form.
#[derive(Debug, Clone, PartialEq, Eq)]
pub struct FormPart {
    /// Field name.
    pub name: String,
    /// Field value, as text.
    pub value: String,
}

/// How the parameters of a call are encoded.
#[derive(Debug, Clone, PartialEq, Eq)]
pub enum RequestBody {
    /// No parameters.
    Empty,
    /// A JSON document, as bytes.
    Json(Vec<u8>),
    /// A multipart form.
    Form(Vec<FormPart>),
}

/// One outbound call before it is bound to a server and a credential:
/// endpoint name, verb and body.
#[derive(Debug, Clone, PartialEq, Eq)]
pub struct RequestBuilder {
    pub endpoint: String,
    pub method: RequestMethod,
    pub body: RequestBody,
}

/// One outbound call, ready for the transport.
#[derive(Debug, Clone, PartialEq, Eq)]
pub struct Request {
    pub method: RequestMethod,
    pub url: String,
    pub body: RequestBody,
}

/// The address of an endpoint: the server's base address, the credential
/// and the endpoint's name, with a slash between each two.
pub open spec fn endpoint_url(base_url: Seq<char>, token: Seq<char>, endpoint: Seq<char>) -> Seq<
    char,
> {
    base_url + seq!['/'] + token + seq!['/'] + endpoint
}

impl RequestBuilder {
    /// A call without parameters, sent with `GET`.
    pub fn empty(endpoint: &str) -> (r: RequestBuilder)
        ensures
            r.endpoint@ == endpoint@,
            r.method == RequestMethod::Get,
            r.body == RequestBody::Empty,
    {
        RequestBuilder {
            endpoint: String::from_str(endpoint),
            method: RequestMethod::Get,
            body: RequestBody::Empty,
        }
    }

    /// A call whose parameters are the JSON document `text`, sent with
    /// `POST`. The body holds the document's bytes.
    pub fn json(endpoint: &str, text: &str) -> (r: RequestBuilder)
        ensures
            r.endpoint@ == endpoint@,
            r.method == RequestMethod::Post,
            r.body matches RequestBody::Json(bytes) && bytes@ == encode_utf8(text@),
    {
        RequestBuilder {
            endpoint: String::from_str(endpoint),
            method: RequestMethod::Post,
            body: RequestBody::Json(text.as_bytes_vec()),
        }
    }

    /// A call whose parameters are a multipart form, sent with `POST`.
    pub fn form(endpoint: &str, parts: Vec<FormPart>) -> (r: RequestBuilder)
        ensures
            r.endpoint@ == endpoint@,
            r.method == RequestMethod::Post,
            r.body == RequestBody::Form(parts),
    {
        RequestBuilder {
            endpoint: String::from_str(endpoint),
            method: RequestMethod::Post,
            body: RequestBody::Form(parts),
        }
    }

    /// Binds the call to a server and a credential. Verb and body are kept.
    pub fn build(self, base_url: &str, token: &str) -> (r: Request)
        ensures
            r.method == self.method,
            r.body == self.body,
            r.url@ == endpoint_url(base_url@, token@, self.endpoint@),
    {
        proof {
            reveal_strlit("/");
        }
        let mut url = String::from_str(base_url);
        url.append("/");
        url.append(token);
        url.append("/");
        url.append(self.endpoint.as_str());
        assert(url@ =~= endpoint_url(base_url@, token@, self.endpoint@));
        Request { method: self.method, url, body: self.body }
    }
}

} // verus!
