//! Endpoint and route requests, parsed from their textual forms.
//!
//! A virtual-port request is written `[<id>:]<path>`, a physical-port
//! request `[<id>:]<path>[,<baud-rate>]`, and a route `<src-id>:<dst-id>`.
//! When a request omits the identifier, it defaults to the final path
//! component of the device or link path.

use vstd::prelude::*;

use crate::error::Error;
use crate::text::{
    contains_char, first_index, is_u32_numeral, parse_u32, split_at_first, u32_numeral_value,
};

verus! {

/// A request for a virtual serial port: a pseudo-terminal whose subordinate
/// side is published at `path`.
pub struct Virtual {
    pub id: String,
    pub path: String,
}

/// A request to open the physical serial device at `path`.
pub struct Physical {
    pub id: String,
    pub path: String,
    pub baud_rate: u32,
}

/// A directed routing edge: bytes read from the endpoint named `src` are
/// forwarded to the endpoint named `dst`.
pub struct Route {
    pub src: String,
    pub dst: String,
}

/// What `camino::Utf8Path::file_name` returns for a path made of these
/// characters: its final component, if it has one.
pub uninterp spec fn file_name_of(path: Seq<char>) -> Option<Seq<char>>;

/// Relies on `camino::Utf8Path::file_name`: the final component of the
/// path, `None` when the path is empty, is a root, or ends in `..`.
#[verifier::external_body]
pub(crate) fn path_file_name(path: &str) -> (r: Option<String>)
    ensures
        r is Some <==> file_name_of(path@) is Some,
        r matches Some(n) ==> file_name_of(path@) == Some(n@),
{
    camino::Utf8Path::new(path).file_name().map(|n| n.to_owned())
}

/// The identifier that the endpoint request `s` declares: the text before
/// the first `:`, or, if there is none, the final component of the path.
pub open spec fn spec_virtual_id(s: Seq<char>) -> Option<Seq<char>> {
    if contains_char(s, ':') {
        Some(s.take(first_index(s, ':')))
    } else {
        file_name_of(s)
    }
}

/// The path that the endpoint request `s` names: the text after the first
/// `:`, or the whole request if there is none.
pub open spec fn spec_virtual_path(s: Seq<char>) -> Seq<char> {
    if contains_char(s, ':') {
        s.skip(first_index(s, ':') + 1)
    } else {
        s
    }
}

/// Parses a virtual-port request of the form `[<id>:]<path>`.  Fails only
/// when no identifier is given and the path has no final component.
pub fn parse_virtual(s: &str) -> (r: Result<Virtual, Error>)
    ensures
        match r {
            Ok(v) => {
                &&& spec_virtual_id(s@) == Some(v.id@)
                &&& v.path@ == spec_virtual_path(s@)
            },
            Err(e) => {
                &&& spec_virtual_id(s@) is None
                &&& e matches Error::InvalidPath { input } && input@ == s@
            },
        },
{
    match split_at_first(s, ':') {
        Some((id, path)) => Ok(Virtual { id: id.to_owned(), path: path.to_owned() }),
        None => match path_file_name(s) {
            Some(name) => Ok(Virtual { id: name, path: s.to_owned() }),
            None => Err(Error::InvalidPath { input: s.to_owned() }),
        },
    }
}

/// The part of a physical-port request before the first `,`: the
/// `[<id>:]<path>` form.
pub open spec fn spec_physical_body(s: Seq<char>) -> Seq<char> {
    if contains_char(s, ',') {
        s.take(first_index(s, ','))
    } else {
        s
    }
}

/// The baud-rate text of a physical-port request: what follows the first
/// `,`, if anything does.
pub open spec fn spec_physical_baud(s: Seq<char>) -> Option<Seq<char>> {
    if contains_char(s, ',') {
        Some(s.skip(first_index(s, ',') + 1))
    } else {
        None
    }
}

/// Parses a physical-port request of the form `[<id>:]<path>[,<baud-rate>]`.
/// The baud rate defaults to 9600 when omitted.
pub fn parse_physical(s: &str) -> (r: Result<Physical, Error>)
    ensures
        match r {
            Ok(p) => {
                &&& match spec_physical_baud(s@) {
                    Some(b) => is_u32_numeral(b) && p.baud_rate == u32_numeral_value(b),
                    None => p.baud_rate == 9600,
                }
                &&& spec_virtual_id(spec_physical_body(s@)) == Some(p.id@)
                &&& p.path@ == spec_virtual_path(spec_physical_body(s@))
            },
            Err(e) => {
                ||| {
                    &&& e matches Error::InvalidBaudRate { input } && spec_physical_baud(s@)
                        == Some(input@)
                    &&& !is_u32_numeral(spec_physical_baud(s@).unwrap())
                }
                ||| {
                    &&& (spec_physical_baud(s@) matches Some(b) ==> is_u32_numeral(b))
                    &&& spec_virtual_id(spec_physical_body(s@)) is None
                    &&& e matches Error::InvalidPath { input } && input@ == spec_physical_body(
                        s@,
                    )
                }
            },
        },
{
    let (body, baud_rate) = match split_at_first(s, ',') {
        None => (s, 9600u32),
        Some((body, baud_text)) => match parse_u32(baud_text) {
            Some(v) => (body, v),
            None => {
                return Err(Error::InvalidBaudRate { input: baud_text.to_owned() });
            },
        },
    };
    match parse_virtual(body) {
        Ok(v) => Ok(Physical { id: v.id, path: v.path, baud_rate }),
        Err(e) => Err(e),
    }
}

/// Parses a route of the form `<src-id>:<dst-id>`.
pub fn parse_route(s: &str) -> (r: Result<Route, Error>)
    ensures
        match r {
            Ok(t) => {
                &&& contains_char(s@, ':')
                &&& t.src@ == s@.take(first_index(s@, ':'))
                &&& t.dst@ == s@.skip(first_index(s@, ':') + 1)
            },
            Err(e) => {
                &&& !contains_char(s@, ':')
                &&& e matches Error::InvalidRoute { input } && input@ == s@
            },
        },
{
    match split_at_first(s, ':') {
        Some((src, dst)) => Ok(Route { src: src.to_owned(), dst: dst.to_owned() }),
        None => Err(Error::InvalidRoute { input: s.to_owned() }),
    }
}

} // verus!
