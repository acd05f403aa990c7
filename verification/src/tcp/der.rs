//! Files of certificates: one DER-encoded certificate after another.

use vstd::prelude::*;
use vstd::slice::slice_subrange;

verus! {

/// The first `count` bytes, if there are so many.
pub open spec fn spec_whole(bytes: Seq<u8>, count: int) -> Option<nat> {
    if count <= bytes.len() {
        Some(count as nat)
    } else {
        None
    }
}

/// The length of the certificate at the front of `bytes`, header and
/// content: a sequence, whose tag is `0x30`, with its length in one byte
/// or in one, two or three bytes behind a byte that counts them; `None`
/// where the front is no such element, or the element is not there whole.
pub open spec fn spec_element_len(bytes: Seq<u8>) -> Option<nat> {
    if bytes.len() < 2 || bytes[0] != 0x30 {
        None
    } else if bytes[1] < 0x80 {
        spec_whole(bytes, 2 + bytes[1])
    } else if bytes[1] == 0x81 && bytes.len() >= 3 {
        spec_whole(bytes, 3 + bytes[2])
    } else if bytes[1] == 0x82 && bytes.len() >= 4 {
        spec_whole(bytes, 4 + 256 * bytes[2] + bytes[3])
    } else if bytes[1] == 0x83 && bytes.len() >= 5 {
        spec_whole(bytes, 5 + 65536 * bytes[2] + 256 * bytes[3] + bytes[4])
    } else {
        None
    }
}

/// The certificates that a file holds, in order; `None` where the bytes
/// are not one certificate after another, with nothing between or behind.
pub open spec fn spec_split_certificates(bytes: Seq<u8>) -> Option<Seq<Seq<u8>>>
    decreases bytes.len(),
{
    if bytes.len() == 0 {
        Some(Seq::empty())
    } else {
        match spec_element_len(bytes) {
            None => None,
            Some(count) => match spec_split_certificates(bytes.skip(count as int)) {
                None => None,
                Some(rest) => Some(seq![bytes.take(count as int)] + rest),
            },
        }
    }
}

/// The bytes of each of some runs of bytes.
pub open spec fn spec_views(runs: Seq<Vec<u8>>) -> Seq<Seq<u8>> {
    Seq::new(runs.len(), |i: int| runs[i]@)
}

/// A copy of a run of bytes.
pub fn copy_bytes(bytes: &[u8]) -> (copy: Vec<u8>)
    ensures
        copy@ == bytes@,
{
    let len: usize = bytes.len();
    let mut copy: Vec<u8> = Vec::with_capacity(len);
    let mut i: usize = 0;
    while i < len
        invariant
            i <= len,
            len == bytes@.len(),
            copy@ == bytes@.take(i as int),
        decreases len - i,
    {
        copy.push(bytes[i]);
        assert(copy@ =~= bytes@.take(i + 1));
        i = i + 1;
    }
    assert(copy@ =~= bytes@);
    copy
}

/// Finds the length of the certificate that starts at `start`.
pub fn element_len(bytes: &[u8], start: usize) -> (r: Option<usize>)
    requires
        start <= bytes@.len(),
    ensures
        match r {
            Some(count) => spec_element_len(bytes@.skip(start as int)) == Some(count as nat),
            None => spec_element_len(bytes@.skip(start as int)).is_none(),
        },
{
    let room: usize = bytes.len() - start;
    if room < 2 || bytes[start] != 0x30 {
        return None;
    }
    let first: u8 = bytes[start + 1];
    let count: usize = if first < 0x80 {
        2 + first as usize
    } else if first == 0x81 && room >= 3 {
        3 + bytes[start + 2] as usize
    } else if first == 0x82 && room >= 4 {
        4 + 256 * (bytes[start + 2] as usize) + bytes[start + 3] as usize
    } else if first == 0x83 && room >= 5 {
        5 + 65536 * (bytes[start + 2] as usize) + 256 * (bytes[start + 3] as usize)
            + bytes[start + 4] as usize
    } else {
        return None;
    };
    if count <= room {
        Some(count)
    } else {
        None
    }
}

/// Splits the bytes of a file into the certificates that it holds. An
/// empty file holds none; bytes that are not one certificate after
/// another give `None`.
pub fn split_certificates(bytes: &[u8]) -> (r: Option<Vec<Vec<u8>>>)
    ensures
        match r {
            Some(certificates) => spec_split_certificates(bytes@) == Some(
                spec_views(certificates@),
            ),
            None => spec_split_certificates(bytes@).is_none(),
        },
{
    let len: usize = bytes.len();
    let mut certificates: Vec<Vec<u8>> = Vec::new();
    let mut start: usize = 0;
    proof {
        assert(bytes@.skip(0) =~= bytes@);
        match spec_split_certificates(bytes@) {
            None => {},
            Some(rest) => {
                assert(spec_views(certificates@) + rest =~= rest);
            },
        }
    }
    while start < len
        invariant
            start <= len,
            len == bytes@.len(),
            spec_split_certificates(bytes@) == match spec_split_certificates(
                bytes@.skip(start as int),
            ) {
                None => None::<Seq<Seq<u8>>>,
                Some(rest) => Some(spec_views(certificates@) + rest),
            },
        decreases len - start,
    {
        let ghost tail = bytes@.skip(start as int);
        let ghost before = spec_views(certificates@);
        let count: usize = match element_len(bytes, start) {
            Some(count) => count,
            None => {
                return None;
            },
        };
        let certificate = copy_bytes(slice_subrange(bytes, start, start + count));
        assert(certificate@ =~= tail.take(count as int));
        assert(tail.skip(count as int) =~= bytes@.skip(start + count));
        certificates.push(certificate);
        proof {
            let after = spec_views(certificates@);
            assert(after =~= before.push(certificate@));
            match spec_split_certificates(bytes@.skip(start + count)) {
                None => {},
                Some(rest) => {
                    assert(before + (seq![tail.take(count as int)] + rest) =~= after + rest);
                },
            }
        }
        start = start + count;
    }
    assert(bytes@.skip(len as int).len() == 0);
    assert(spec_views(certificates@) + Seq::<Seq<u8>>::empty() =~= spec_views(certificates@));
    Some(certificates)
}

} // verus!
