//! The requests that the lookups send.
//!
//! Every lookup is one request to `https://api.postcodes.io`. This module
//! says which; sending it is left to the caller.

use crate::json::{array_of_texts, json_of, object_of, Json};
use serde_json::Value;
use vstd::prelude::*;

verus! {

/// How a request is sent.
#[derive(Debug, Clone, Copy, PartialEq, Eq)]
pub enum Method {
    Get,
    Post,
}

/// One request to the service.
#[derive(Debug, Clone, PartialEq)]
pub struct Request {
    pub method: Method,
    pub url: String,
    /// The JSON document that a `Post` carries.
    pub body: Option<Value>,
}

/// A [`Request`] with its address as a sequence of characters and its body
/// as the JSON value it holds.
pub struct RequestView {
    pub method: Method,
    pub url: Seq<char>,
    pub body: Option<Json>,
}

impl View for Request {
    type V = RequestView;

    open spec fn view(&self) -> RequestView {
        RequestView {
            method: self.method,
            url: self.url@,
            body: match self.body {
                Some(v) => Some(json_of(v)),
                None => None,
            },
        }
    }
}

/// The request without a body that fetches an address.
pub open spec fn get(url: Seq<char>) -> RequestView {
    RequestView { method: Method::Get, url, body: None }
}

/// The address of one postcode: the code is appended as it is given.
pub open spec fn lookup_url(code: Seq<char>) -> Seq<char> {
    "https://api.postcodes.io/postcodes/"@ + code
}

/// The address that tells whether a postcode is valid.
pub open spec fn validation_url(code: Seq<char>) -> Seq<char> {
    lookup_url(code) + "/validate"@
}

/// The address of the postcodes near a place: longitude first, then
/// latitude, each as the decimal text given.
pub open spec fn nearest_url(latitude: Seq<char>, longitude: Seq<char>) -> Seq<char> {
    "https://api.postcodes.io/postcodes?lon="@ + longitude + "&lat="@ + latitude
}

/// The address that bulk lookups are posted to.
pub open spec fn bulk_url() -> Seq<char> {
    "https://api.postcodes.io/postcodes"@
}

/// The address of a random postcode.
pub open spec fn random_url() -> Seq<char> {
    "https://api.postcodes.io/random/postcodes"@
}

/// The document that a bulk lookup posts: an object whose one member,
/// `postcodes`, is the array of the codes in their order.
pub open spec fn bulk_body(codes: Seq<Seq<char>>) -> Json {
    Json::single("postcodes"@, Json::texts(codes))
}

impl Request {
    /// The request that looks one postcode up.
    pub fn lookup(code: &str) -> (r: Request)
        ensures
            r@ == get(lookup_url(code@)),
    {
        let mut url = "https://api.postcodes.io/postcodes/".to_owned();
        url.append(code);
        Request { method: Method::Get, url, body: None }
    }

    /// The request that looks many postcodes up at once.
    pub fn bulk(codes: &Vec<&str>) -> (r: Request)
        ensures
            r@ == (RequestView {
                method: Method::Post,
                url: bulk_url(),
                body: Some(bulk_body(codes@.map_values(|code: &str| code@))),
            }),
    {
        let body = object_of("postcodes", array_of_texts(codes));
        Request {
            method: Method::Post,
            url: "https://api.postcodes.io/postcodes".to_owned(),
            body: Some(body),
        }
    }

    /// The request that finds the postcodes nearest to a place. The two
    /// coordinates are given as decimal texts.
    pub fn nearest(latitude: &str, longitude: &str) -> (r: Request)
        ensures
            r@ == get(nearest_url(latitude@, longitude@)),
    {
        let mut url = "https://api.postcodes.io/postcodes?lon=".to_owned();
        url.append(longitude);
        url.append("&lat=");
        url.append(latitude);
        Request { method: Method::Get, url, body: None }
    }

    /// The request that fetches a random postcode.
    pub fn random() -> (r: Request)
        ensures
            r@ == get(random_url()),
    {
        Request {
            method: Method::Get,
            url: "https://api.postcodes.io/random/postcodes".to_owned(),
            body: None,
        }
    }

    /// The request that asks whether a postcode is valid.
    pub fn validation(code: &str) -> (r: Request)
        ensures
            r@ == get(validation_url(code@)),
    {
        let mut url = "https://api.postcodes.io/postcodes/".to_owned();
        url.append(code);
        url.append("/validate");
        Request { method: Method::Get, url, body: None }
    }
}

} // verus!
