//! Parsing of the request head, and the target it leads to.

use vstd::prelude::*;
use crate::error::BridgeError;
use crate::request::{
    header_models, inspect_request, inspection, outcome_model, Header, HeaderModel, Target,
    TargetModel,
};

verus! {

/// How many headers a request head may carry.
pub const MAX_HEADERS: usize = 16;

/// What parsing the buffered bytes as a request head gave.
#[derive(Debug, PartialEq, Eq)]
pub enum HeadParse {
    /// The bytes hold a complete head, with this method and these
    /// headers, in the order in which they stand.
    Complete { method: String, headers: Vec<Header> },
    /// The bytes are the beginning of a head that is not yet finished.
    Partial,
    /// The bytes are no request head.
    Invalid,
}

/// The mathematical content of a [`HeadParse`].
pub enum HeadModel {
    Complete { method: Seq<char>, headers: Seq<HeaderModel> },
    Partial,
    Invalid,
}

impl View for HeadParse {
    type V = HeadModel;

    open spec fn view(&self) -> HeadModel {
        match self {
            HeadParse::Complete { method, headers } => HeadModel::Complete {
                method: method@,
                headers: header_models(headers@),
            },
            HeadParse::Partial => HeadModel::Partial,
            HeadParse::Invalid => HeadModel::Invalid,
        }
    }
}

/// What the HTTP parser makes of `buf` when it may record up to
/// `max_headers` headers.
pub uninterp spec fn parsed_head(buf: Seq<u8>, max_headers: usize) -> HeadModel;

/// Parses a request head with `httparse::Request::parse`, on a fresh
/// request with `max_headers` empty header slots.
///
/// A complete head comes back with its method and, in order, the headers
/// that the parser recorded; an unfinished one as `Partial`; any parse
/// error as `Invalid`.
///
/// Trusted: that the outcome depends on the bytes and on the number of
/// header slots alone.  Nothing else is claimed of it.
#[verifier::external_body]
pub(crate) fn parse_head(buf: &[u8], max_headers: usize) -> (head: HeadParse)
    requires
        max_headers <= MAX_HEADERS,
    ensures
        head@ == parsed_head(buf@, max_headers),
{
    let mut slots = vec![httparse::EMPTY_HEADER; max_headers];
    let mut request = httparse::Request::new(&mut slots);
    match request.parse(buf) {
        Ok(httparse::Status::Complete(_)) => HeadParse::Complete {
            method: request.method.unwrap_or("").to_string(),
            headers: request.headers.iter().map(
                |h| Header { name: h.name.to_string(), value: h.value.to_vec() },
            ).collect(),
        },
        Ok(httparse::Status::Partial) => HeadParse::Partial,
        Err(_) => HeadParse::Invalid,
    }
}

/// The target that a parsed head leads to.  Only a complete head leads
/// anywhere: an unfinished or malformed one is an incomplete request.
pub open spec fn head_target(head: HeadModel) -> Result<TargetModel, BridgeError> {
    match head {
        HeadModel::Complete { method, headers } => inspection(method, headers),
        HeadModel::Partial => Err(BridgeError::IncompleteRequest),
        HeadModel::Invalid => Err(BridgeError::IncompleteRequest),
    }
}

/// Decides where a parsed head is to be sent.
pub fn target_of_head(head: &HeadParse) -> (r: Result<Target, BridgeError>)
    ensures
        outcome_model(r) == head_target(head@),
{
    match head {
        HeadParse::Complete { method, headers } => inspect_request(
            method.as_str(),
            headers.as_slice(),
        ),
        HeadParse::Partial => Err(BridgeError::IncompleteRequest),
        HeadParse::Invalid => Err(BridgeError::IncompleteRequest),
    }
}

/// Parses the buffered bytes and decides where the request is to be sent.
///
/// The bytes are parsed once, as they are: a head that they do not hold
/// whole is an incomplete request.
pub fn request_target(buf: &[u8]) -> (r: Result<Target, BridgeError>)
    ensures
        outcome_model(r) == head_target(parsed_head(buf@, MAX_HEADERS)),
{
    let head = parse_head(buf, MAX_HEADERS);
    target_of_head(&head)
}

} // verus!
