//! Decoders of request bodies, as a server needs them.

use vstd::prelude::*;

use crate::error::details::{ADUParseError, InvalidRequest};
use crate::error::Error;
use crate::service::serialization::client_response_parsers::{read_two_u16, spec_two_u16};
use crate::service::traits::ParseRequest;
use crate::types::{coil_from_u16, spec_coil_from_u16, AddressRange, Indexed};
use crate::util::cursor::ReadCursor;

verus! {

/// What four bytes decode to as a start and a count.
pub open spec fn spec_parse_address_range(bytes: Seq<u8>) -> Result<AddressRange, Error> {
    match spec_two_u16(bytes) {
        None => Err(Error::BadResponse(ADUParseError::InsufficientBytes)),
        Some((start, count)) => match AddressRange::spec_try_from(start, count) {
            Ok(range) => Ok(range),
            Err(err) => Err(Error::BadRequest(InvalidRequest::BadRange(err))),
        },
    }
}

impl ParseRequest for AddressRange {
    open spec fn spec_parse(bytes: Seq<u8>) -> Result<AddressRange, Error> {
        spec_parse_address_range(bytes)
    }

    open spec fn spec_parsed_len() -> nat {
        4
    }

    /// Decodes a start and a count, which must make a valid range.
    fn parse(cursor: &mut ReadCursor) -> (r: Result<Self, Error>) {
        let (start, count) = match read_two_u16(cursor) {
            Ok(pair) => pair,
            Err(err) => {
                return Err(Error::BadResponse(err));
            },
        };
        match AddressRange::try_from(start, count) {
            Ok(range) => Ok(range),
            Err(err) => Err(Error::BadRequest(InvalidRequest::BadRange(err))),
        }
    }
}

impl ParseRequest for Indexed<bool> {
    open spec fn spec_parse(bytes: Seq<u8>) -> Result<Indexed<bool>, Error> {
        match spec_two_u16(bytes) {
            None => Err(Error::BadResponse(ADUParseError::InsufficientBytes)),
            Some((index, raw)) => match spec_coil_from_u16(raw) {
                Ok(value) => Ok(Indexed { index, value }),
                Err(err) => Err(Error::BadResponse(err)),
            },
        }
    }

    open spec fn spec_parsed_len() -> nat {
        4
    }

    /// Decodes the address and the state of one coil.
    fn parse(cursor: &mut ReadCursor) -> (r: Result<Self, Error>) {
        let (index, raw) = match read_two_u16(cursor) {
            Ok(pair) => pair,
            Err(err) => {
                return Err(Error::BadResponse(err));
            },
        };
        match coil_from_u16(raw) {
            Ok(value) => Ok(Indexed::new(index, value)),
            Err(err) => Err(Error::BadResponse(err)),
        }
    }
}

impl ParseRequest for Indexed<u16> {
    open spec fn spec_parse(bytes: Seq<u8>) -> Result<Indexed<u16>, Error> {
        match spec_two_u16(bytes) {
            None => Err(Error::BadResponse(ADUParseError::InsufficientBytes)),
            Some((index, value)) => Ok(Indexed { index, value }),
        }
    }

    open spec fn spec_parsed_len() -> nat {
        4
    }

    /// Decodes the address and the value of one register.
    fn parse(cursor: &mut ReadCursor) -> (r: Result<Self, Error>) {
        match read_two_u16(cursor) {
            Ok((index, value)) => Ok(Indexed::new(index, value)),
            Err(err) => Err(Error::BadResponse(err)),
        }
    }
}

} // verus!
