//! The simulation id that a `Location` header points at.
use crate::text::{
    all_visible_ascii, ascii_chars, header_text, last_nonempty, last_nonempty_segment,
    lemma_last_nonempty_is_piece, lemma_split_pieces_have_no_slash, split_slash,
};
use vstd::prelude::*;

verus! {

/// `url::ParseError`, carried through as an opaque value.
#[verifier::external_type_specification]
#[verifier::external_body]
pub struct ExUrlParseError(url::ParseError);

/// The path that `url::Url::parse` finds in `input`, when it parses.
pub uninterp spec fn parsed_url_path(input: Seq<char>) -> Option<Seq<char>>;

/// Parses `input` as an absolute URL and returns its path.
///
/// Calls `url::Url::parse` and reads `Url::path` of the parsed value. The
/// contract claims only that the outcome is a function of the input text
/// (named `parsed_url_path`); which texts parse, and to which path, is the
/// `url` crate's WHATWG parser and is not restated here.
#[verifier::external_body]
fn url_path(input: &str) -> (res: Result<String, url::ParseError>)
    ensures
        res is Ok <==> parsed_url_path(input@) is Some,
        res matches Ok(p) ==> parsed_url_path(input@) == Some(p@),
{
    match url::Url::parse(input) {
        Ok(u) => Ok(u.path().to_string()),
        Err(e) => Err(e),
    }
}

/// The '/'-separated segments of a URL path, as `Url::path_segments` gives
/// them: none when the path does not start with '/'.
pub open spec fn path_segments(path: Seq<char>) -> Option<Seq<Seq<char>>> {
    if path.len() > 0 && path[0] == '/' {
        Some(split_slash(path.subrange(1, path.len() as int)))
    } else {
        None
    }
}

/// Why no simulation id could be read from a `Location` header.
#[derive(Debug)]
pub enum LocationError {
    /// The response carries no `Location` header.
    Missing,
    /// The header holds bytes other than visible ASCII.
    NotText,
    /// The header text is no URL.
    Url(url::ParseError),
    /// The URL is cannot-be-a-base: its path has no segments.
    NotHierarchical,
    /// Every path segment is empty.
    NoSegment,
}

/// The kinds of `LocationError`, as values that specifications can name.
#[derive(Debug, Clone, Copy, PartialEq, Eq)]
pub enum LocationFailure {
    Missing,
    NotText,
    Url,
    NotHierarchical,
    NoSegment,
}

/// The simulation id that a `Location` header yields, or why it yields none.
pub open spec fn location_result(location: Option<Seq<u8>>) -> Result<Seq<char>, LocationFailure> {
    match location {
        None => Err(LocationFailure::Missing),
        Some(b) => if !all_visible_ascii(b) {
            Err(LocationFailure::NotText)
        } else {
            match parsed_url_path(ascii_chars(b)) {
                None => Err(LocationFailure::Url),
                Some(path) => match path_segments(path) {
                    None => Err(LocationFailure::NotHierarchical),
                    Some(segments) => match last_nonempty(segments) {
                        None => Err(LocationFailure::NoSegment),
                        Some(id) => Ok(id),
                    },
                },
            }
        },
    }
}

/// A simulation id read from a `Location` header is never empty and holds
/// no '/': it is one whole segment of the URL's path.
pub proof fn simulation_id_law(location: Option<Seq<u8>>)
    ensures
        location_result(location) matches Ok(id) ==> id.len() > 0 && !id.contains('/'),
{
    if let Some(b) = location {
        if all_visible_ascii(b) {
            if let Some(path) = parsed_url_path(ascii_chars(b)) {
                if let Some(segments) = path_segments(path) {
                    let rest = path.subrange(1, path.len() as int);
                    lemma_split_pieces_have_no_slash(rest);
                    lemma_last_nonempty_is_piece(segments);
                }
            }
        }
    }
}

impl LocationError {
    pub open spec fn kind(&self) -> LocationFailure {
        match self {
            LocationError::Missing => LocationFailure::Missing,
            LocationError::NotText => LocationFailure::NotText,
            LocationError::Url(_) => LocationFailure::Url,
            LocationError::NotHierarchical => LocationFailure::NotHierarchical,
            LocationError::NoSegment => LocationFailure::NoSegment,
        }
    }
}

/// The header's bytes, as specifications see them.
pub open spec fn header_bytes(location: Option<&[u8]>) -> Option<Seq<u8>> {
    match location {
        Some(b) => Some(b@),
        None => None,
    }
}

/// Reads the simulation id from the `Location` header of a simulation
/// request's answer: the last non-empty segment of the URL's path.
pub fn simulation_id(location: Option<&[u8]>) -> (res: Result<String, LocationError>)
    ensures
        match res {
            Ok(id) => location_result(header_bytes(location)) == Ok::<Seq<char>, LocationFailure>(id@),
            Err(e) => location_result(header_bytes(location)) == Err::<Seq<char>, LocationFailure>(e.kind()),
        },
{
    let bytes = match location {
        Some(b) => b,
        None => return Err(LocationError::Missing),
    };
    let text = match header_text(bytes) {
        Some(t) => t,
        None => return Err(LocationError::NotText),
    };
    let path = match url_path(text.as_str()) {
        Ok(p) => p,
        Err(e) => return Err(LocationError::Url(e)),
    };
    let len = path.as_str().unicode_len();
    if len == 0 || path.as_str().get_char(0) != '/' {
        return Err(LocationError::NotHierarchical);
    }
    let rest = path.as_str().substring_char(1, len);
    match last_nonempty_segment(rest) {
        Some(id) => Ok(id),
        None => Err(LocationError::NoSegment),
    }
}

} // verus!
