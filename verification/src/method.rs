//! The request methods, and how a token names one.

use vstd::prelude::*;

use crate::error::HttpError;
use crate::text::{str_eq, upper_case};

verus! {

/// The request methods that the parser accepts. `HTTP2` stands for the method
/// token `PRI`, with which an HTTP/2 client preface begins.
#[derive(Debug, Clone, Copy, PartialEq, Eq, Structural)]
pub enum HttpMethod {
    GET,
    POST,
    PUT,
    DELETE,
    OPTIONS,
    HTTP2,
}

/// The method that an upper-case token names.
pub open spec fn method_of_upper(token: Seq<char>) -> Result<HttpMethod, HttpError> {
    if token == "GET"@ {
        Ok(HttpMethod::GET)
    } else if token == "POST"@ {
        Ok(HttpMethod::POST)
    } else if token == "PUT"@ {
        Ok(HttpMethod::PUT)
    } else if token == "DELETE"@ {
        Ok(HttpMethod::DELETE)
    } else if token == "OPTIONS"@ {
        Ok(HttpMethod::OPTIONS)
    } else if token == "PRI"@ {
        Ok(HttpMethod::HTTP2)
    } else {
        Err(HttpError::UnrecognizedMethod)
    }
}

/// The method that a token names, whatever its case.
pub open spec fn method_of(token: Seq<char>) -> Result<HttpMethod, HttpError> {
    method_of_upper(upper_case(token))
}

impl HttpMethod {
    /// Reads a method from a token that is already in upper case.
    pub fn from_upper(token: &str) -> (r: Result<HttpMethod, HttpError>)
        ensures
            r == method_of_upper(token@),
    {
        if str_eq(token, "GET") {
            Ok(HttpMethod::GET)
        } else if str_eq(token, "POST") {
            Ok(HttpMethod::POST)
        } else if str_eq(token, "PUT") {
            Ok(HttpMethod::PUT)
        } else if str_eq(token, "DELETE") {
            Ok(HttpMethod::DELETE)
        } else if str_eq(token, "OPTIONS") {
            Ok(HttpMethod::OPTIONS)
        } else if str_eq(token, "PRI") {
            Ok(HttpMethod::HTTP2)
        } else {
            Err(HttpError::UnrecognizedMethod)
        }
    }

    /// Reads a method from a token, ignoring its case.
    pub fn parse(value: &str) -> (r: Result<HttpMethod, HttpError>)
        ensures
            r == method_of(value@),
    {
        let upper = value.to_uppercase();
        HttpMethod::from_upper(upper.as_str())
    }
}

} // verus!
