//! Public keys as repositories hand them out: the key inside the DER
//! encoding of a `SubjectPublicKeyInfo`.

use vstd::prelude::*;
use vstd::slice::{slice_subrange, slice_to_vec};

verus! {

/// The number that `bytes` write, most significant byte first.
pub open spec fn big_endian(bytes: Seq<u8>) -> nat
    decreases bytes.len(),
{
    if bytes.len() == 0 {
        0
    } else {
        big_endian(bytes.drop_last()) * 256 + bytes.last() as nat
    }
}

/// The length field at the start of `input`: the length that it states, and
/// the number of bytes that it takes up. A first byte below 128 is the
/// length; one above 128 says how many bytes follow that write the length,
/// of which up to four are read.
pub open spec fn der_length(input: Seq<u8>) -> Option<(int, int)> {
    if input.len() == 0 {
        None
    } else if input[0] < 0x80 {
        Some((input[0] as int, 1))
    } else {
        let count = input[0] - 0x80;
        if count == 0 || count > 4 || input.len() < 1 + count {
            None
        } else {
            Some((big_endian(input.subrange(1, 1 + count)) as int, 1 + count))
        }
    }
}

/// The element at the start of `input`, which must have the tag `tag`: its
/// contents, and what follows it in `input`.
pub open spec fn der_element(input: Seq<u8>, tag: u8) -> Option<(Seq<u8>, Seq<u8>)> {
    if input.len() == 0 || input[0] != tag {
        None
    } else {
        match der_length(input.skip(1)) {
            None => None,
            Some((length, taken)) => if input.len() < 1 + taken + length {
                None
            } else {
                Some(
                    (
                        input.subrange(1 + taken, 1 + taken + length),
                        input.skip(1 + taken + length),
                    ),
                )
            },
        }
    }
}

/// The tag of a DER sequence.
pub const SEQUENCE: u8 = 0x30;

/// The tag of a DER bit string.
pub const BIT_STRING: u8 = 0x03;

/// The public key inside a `SubjectPublicKeyInfo`: a sequence that holds the
/// algorithm, itself a sequence, and then the key as a bit string of whole
/// bytes.
pub open spec fn subject_public_key(info: Seq<u8>) -> Option<Seq<u8>> {
    match der_element(info, SEQUENCE) {
        None => None,
        Some((body, _)) => match der_element(body, SEQUENCE) {
            None => None,
            Some((_, rest)) => match der_element(rest, BIT_STRING) {
                None => None,
                Some((bits, _)) => if bits.len() == 0 || bits[0] != 0 {
                    None
                } else {
                    Some(bits.skip(1))
                },
            },
        },
    }
}

proof fn lemma_big_endian_bound(bytes: Seq<u8>)
    requires
        bytes.len() <= 4,
    ensures
        big_endian(bytes) < 0x1_0000_0000,
        bytes.len() <= 3 ==> big_endian(bytes) < 0x100_0000,
        bytes.len() <= 2 ==> big_endian(bytes) < 0x1_0000,
        bytes.len() <= 1 ==> big_endian(bytes) < 0x100,
    decreases bytes.len(),
{
    if bytes.len() > 0 {
        lemma_big_endian_bound(bytes.drop_last());
    }
}

/// Reads the length field at the start of `input`.
pub fn read_length(input: &[u8]) -> (length: Option<(u64, usize)>)
    ensures
        match length {
            Some((stated, taken)) => der_length(input@) == Some((stated as int, taken as int)),
            None => der_length(input@) is None,
        },
{
    if input.len() == 0 {
        return None;
    }
    let first = input[0];
    if first < 0x80 {
        return Some((first as u64, 1));
    }
    let count = (first - 0x80) as usize;
    if count == 0 || count > 4 || input.len() - 1 < count {
        return None;
    }
    let mut stated: u64 = 0;
    let mut i: usize = 0;
    while i < count
        invariant
            i <= count <= 4,
            1 + count <= input@.len(),
            stated == big_endian(input@.subrange(1, 1 + i)),
        decreases count - i,
    {
        proof {
            let longer = input@.subrange(1, 1 + i + 1);
            assert(longer.drop_last() =~= input@.subrange(1, 1 + i));
            lemma_big_endian_bound(input@.subrange(1, 1 + i));
        }
        stated = stated * 256 + input[1 + i] as u64;
        i += 1;
    }
    Some((stated, 1 + count))
}

/// Reads the element at the start of `input`, which must have the tag
/// `tag`: its contents, and what follows it.
pub fn read_element<'a>(input: &'a [u8], tag: u8) -> (element: Option<(&'a [u8], &'a [u8])>)
    ensures
        match element {
            Some((contents, rest)) => der_element(input@, tag) == Some((contents@, rest@)),
            None => der_element(input@, tag) is None,
        },
{
    if input.len() == 0 || input[0] != tag {
        return None;
    }
    let after_tag = slice_subrange(input, 1, input.len());
    assert(after_tag@ =~= input@.skip(1));
    let (stated, taken) = match read_length(after_tag) {
        None => { return None; },
        Some(length) => length,
    };
    let room = (input.len() - 1 - taken) as u64;
    if room < stated {
        return None;
    }
    let start = 1 + taken;
    let end = start + stated as usize;
    let contents = slice_subrange(input, start, end);
    let rest = slice_subrange(input, end, input.len());
    assert(rest@ =~= input@.skip(end as int));
    Some((contents, rest))
}

/// Takes the public key out of the DER encoding of a
/// `SubjectPublicKeyInfo`.
pub fn read_subject_public_key(info: &[u8]) -> (key: Option<Vec<u8>>)
    ensures
        match key {
            Some(key) => subject_public_key(info@) == Some(key@),
            None => subject_public_key(info@) is None,
        },
{
    let body = match read_element(info, SEQUENCE) {
        None => { return None; },
        Some((body, _)) => body,
    };
    let rest = match read_element(body, SEQUENCE) {
        None => { return None; },
        Some((_, rest)) => rest,
    };
    let bits = match read_element(rest, BIT_STRING) {
        None => { return None; },
        Some((bits, _)) => bits,
    };
    if bits.len() == 0 || bits[0] != 0 {
        return None;
    }
    let key = slice_subrange(bits, 1, bits.len());
    assert(key@ =~= bits@.skip(1));
    Some(slice_to_vec(key))
}

} // verus!
