//! What every body of a request or of a response can do.

use vstd::prelude::*;

use crate::error::details::InternalError;
use crate::error::Error;
use crate::util::cursor::{ReadCursor, WriteCursor};

verus! {

/// What writing `content` into a window does: with an error for content
/// nothing is written and the error comes back; content that fits is
/// appended; content that does not fit leaves the window as it was and
/// gives `InsufficientBytesForWrite` with the room needed and the room
/// left.
pub open spec fn spec_written(
    content: Result<Seq<u8>, Error>,
    before: Seq<u8>,
    room: nat,
    r: Result<(), Error>,
    after: Seq<u8>,
) -> bool {
    match content {
        Err(err) => r == Err::<(), Error>(err) && after == before,
        Ok(bytes) => if bytes.len() <= room {
            r.is_ok() && after == before + bytes
        } else {
            r == Err::<(), Error>(
                Error::Internal(
                    InternalError::InsufficientBytesForWrite(bytes.len() as usize, room as usize),
                ),
            ) && after == before
        },
    }
}

/// A body that is encoded into a window of bytes.
pub trait Serialize {
    /// The bytes of the body, or why it has none.
    spec fn spec_serialize(&self) -> Result<Seq<u8>, Error>;

    /// Appends the body to the window, or leaves the window as it was.
    fn serialize(&self, cursor: &mut WriteCursor) -> (r: Result<(), Error>)
        ensures
            final(cursor).spec_capacity() == old(cursor).spec_capacity(),
            spec_written(
                self.spec_serialize(),
                old(cursor)@,
                old(cursor).spec_remaining(),
                r,
                final(cursor)@,
            ),
    ;
}

/// A response that is decoded with the request at hand.
pub trait ParseResponse<T>: Sized + View {
    /// The requests for which a response can be decoded.
    spec fn valid_request(request: &T) -> bool;

    /// What the bytes of a response body decode to, given the request that
    /// they answer.
    spec fn spec_parse_response(bytes: Seq<u8>, request: &T) -> Result<Self::V, Error>;

    /// Number of bytes that a response body which decodes takes from the
    /// window: the four of an echo, all of them for a read.
    spec fn spec_parsed_len(bytes: Seq<u8>) -> nat;

    /// Decodes a response body from the cursor and holds it against the
    /// request. On success the cursor has moved past the body.
    fn parse_response(cursor: &mut ReadCursor, request: &T) -> (r: Result<Self, Error>)
        requires
            Self::valid_request(request),
        ensures
            match r {
                Ok(response) => Self::spec_parse_response(old(cursor)@, request) == Ok::<
                    Self::V,
                    Error,
                >(response@) && final(cursor)@ == old(cursor)@.skip(
                    Self::spec_parsed_len(old(cursor)@) as int,
                ),
                Err(err) => Self::spec_parse_response(old(cursor)@, request) == Err::<
                    Self::V,
                    Error,
                >(err),
            },
    ;
}

/// A request body that is decoded on its own.
pub trait ParseRequest: Sized + View {
    /// What the bytes of a request body decode to.
    spec fn spec_parse(bytes: Seq<u8>) -> Result<Self::V, Error>;

    /// Number of bytes that a decoded body takes from the window.
    spec fn spec_parsed_len() -> nat;

    /// Decodes a request body from the cursor, which on success has moved
    /// past it.
    fn parse(cursor: &mut ReadCursor) -> (r: Result<Self, Error>)
        ensures
            match r {
                Ok(request) => Self::spec_parse(old(cursor)@) == Ok::<Self::V, Error>(request@)
                    && final(cursor)@ == old(cursor)@.skip(Self::spec_parsed_len() as int),
                Err(err) => Self::spec_parse(old(cursor)@) == Err::<Self::V, Error>(err),
            },
    ;
}

} // verus!
