//! What is asked of the transport, and the rules by which its answer is
//! judged: no more bytes than allowed, and the digest that was promised.

use vstd::prelude::*;
use std::sync::Arc;
use crate::error::{Error, ErrorView, RoleType};
use vstd::slice::slice_to_vec;
use crate::schema::{bytes_equal, Signed};

verus! {

/// One file to fetch, and the bounds within which it is accepted.
#[derive(Debug, Clone, PartialEq, Eq)]
pub struct FetchRequest {
    /// The URL of the file.
    pub url: String,
    /// The largest number of bytes that the file may have.
    pub max_bytes: u64,
    /// What set that bound: a setting of the caller, or the metadata file
    /// that lists the length.
    pub specifier: &'static str,
    /// The SHA-256 digest that the file must have, where signed metadata
    /// lists one.
    pub sha256: Option<Vec<u8>>,
}

/// A [`FetchRequest`] with its texts and digest as mathematical sequences.
pub struct FetchRequestView {
    pub url: Seq<char>,
    pub max_bytes: u64,
    pub specifier: Seq<char>,
    pub sha256: Option<Seq<u8>>,
}

impl View for FetchRequest {
    type V = FetchRequestView;

    open spec fn view(&self) -> FetchRequestView {
        FetchRequestView {
            url: self.url@,
            max_bytes: self.max_bytes,
            specifier: self.specifier@,
            sha256: match self.sha256 {
                Some(digest) => Some(digest@),
                None => None,
            },
        }
    }
}

/// What came back for a [`FetchRequest`].
#[derive(Debug, Clone, PartialEq, Eq)]
pub enum Fetched<T> {
    /// The transport could not open the file.
    Unavailable,
    /// The transport delivered a file.
    Received {
        /// How many bytes were read. A reader that stops one byte past the
        /// bound of the request says so here.
        length: u64,
        /// The SHA-256 digest of the bytes read.
        sha256: Vec<u8>,
        /// The document decoded from the bytes, where they decode.
        document: Option<Arc<Signed<T>>>,
    },
}

/// The verdict on the size of a file: `MaxSizeExceeded` when it has more than
/// `max_bytes` bytes.
pub open spec fn size_verdict(length: u64, max_bytes: u64, specifier: Seq<char>) -> Result<
    (),
    ErrorView,
> {
    if length > max_bytes {
        Err(ErrorView::MaxSizeExceeded { specifier, max_bytes })
    } else {
        Ok(())
    }
}

/// The verdict on the size and the digest of a file: the size is judged
/// first, then `HashMismatch` when the digest is not the expected one.
pub open spec fn digest_verdict(
    length: u64,
    max_bytes: u64,
    specifier: Seq<char>,
    calculated: Seq<u8>,
    expected: Seq<u8>,
) -> Result<(), ErrorView> {
    if length > max_bytes {
        Err(ErrorView::MaxSizeExceeded { specifier, max_bytes })
    } else if calculated != expected {
        Err(ErrorView::HashMismatch { specifier, expected, calculated })
    } else {
        Ok(())
    }
}

/// The verdict on the answer to `request`, for metadata of `role`: the
/// document, or the first of these that applies. `Transport` when nothing was
/// delivered; `MaxSizeExceeded` and `HashMismatch` as the bounds of the
/// request say; `ParseMetadata` when the bytes did not decode.
pub open spec fn fetch_verdict<T>(
    request: FetchRequestView,
    fetched: Fetched<T>,
    role: RoleType,
) -> Result<Arc<Signed<T>>, ErrorView> {
    match fetched {
        Fetched::Unavailable => Err(ErrorView::Transport { url: request.url }),
        Fetched::Received { length, sha256, document } => {
            let bounds = match request.sha256 {
                Some(expected) => digest_verdict(
                    length,
                    request.max_bytes,
                    request.specifier,
                    sha256@,
                    expected,
                ),
                None => size_verdict(length, request.max_bytes, request.specifier),
            };
            match bounds {
                Err(error) => Err(error),
                Ok(_) => match document {
                    Some(document) => Ok(document),
                    None => Err(ErrorView::ParseMetadata { role }),
                },
            }
        },
    }
}

/// A result with its error seen as a view.
pub open spec fn seen<T>(result: Result<T, Error>) -> Result<T, ErrorView> {
    match result {
        Ok(value) => Ok(value),
        Err(error) => Err(error@),
    }
}

/// Judges the size of a file of which `length` bytes were read.
pub fn fetch_max_size(length: u64, max_bytes: u64, specifier: &'static str) -> (verdict: Result<
    (),
    Error,
>)
    ensures
        seen(verdict) == size_verdict(length, max_bytes, specifier@),
{
    if length > max_bytes {
        Err(Error::MaxSizeExceeded { specifier, max_bytes })
    } else {
        Ok(())
    }
}

/// Judges the size of a file of which `length` bytes were read, and then its
/// digest `calculated` against the digest `expected`.
pub fn fetch_sha256(
    length: u64,
    max_bytes: u64,
    specifier: &'static str,
    calculated: Vec<u8>,
    expected: &[u8],
) -> (verdict: Result<(), Error>)
    ensures
        seen(verdict) == digest_verdict(length, max_bytes, specifier@, calculated@, expected@),
{
    if length > max_bytes {
        Err(Error::MaxSizeExceeded { specifier, max_bytes })
    } else if !bytes_equal(calculated.as_slice(), expected) {
        let expected = slice_to_vec(expected);
        Err(Error::HashMismatch { specifier, expected, calculated })
    } else {
        Ok(())
    }
}

impl FetchRequest {
    /// Judges what came back for this request as metadata of `role`.
    pub fn accept<T>(&self, fetched: Fetched<T>, role: RoleType) -> (verdict: Result<
        Arc<Signed<T>>,
        Error,
    >)
        ensures
            seen(verdict) == fetch_verdict(self@, fetched, role),
    {
        match fetched {
            Fetched::Unavailable => Err(Error::Transport { url: self.url.clone() }),
            Fetched::Received { length, sha256, document } => {
                let bounds = match &self.sha256 {
                    Some(expected) => fetch_sha256(
                        length,
                        self.max_bytes,
                        self.specifier,
                        sha256,
                        expected.as_slice(),
                    ),
                    None => fetch_max_size(length, self.max_bytes, self.specifier),
                };
                match bounds {
                    Err(error) => Err(error),
                    Ok(_) => match document {
                        Some(document) => Ok(document),
                        None => Err(Error::ParseMetadata { role }),
                    },
                }
            },
        }
    }
}

/// How far the file of a request has been read, for a reader that hands the
/// bytes on as they arrive and holds them to the bounds of the request.
///
/// Once the bytes read have broken a bound, they stay refused whatever is
/// read after.
#[derive(Debug, Clone, PartialEq, Eq)]
pub struct Reading {
    max_bytes: u64,
    specifier: &'static str,
    expected: Option<Vec<u8>>,
    length: u64,
    calculated: Option<Vec<u8>>,
}

/// A [`Reading`] with its digests as mathematical sequences.
pub struct ReadingView {
    /// The largest number of bytes that the file may have.
    pub max_bytes: u64,
    /// What set that bound.
    pub specifier: Seq<char>,
    /// The digest that the file must have, where one was requested.
    pub expected: Option<Seq<u8>>,
    /// The number of bytes read so far; it stops counting at the largest
    /// number that it can hold.
    pub length: u64,
    /// The digest of the bytes read, once the end of the stream was seen.
    pub calculated: Option<Seq<u8>>,
}

impl ReadingView {
    /// The verdict on what was read so far: `MaxSizeExceeded` once more
    /// bytes were read than allowed; else `HashMismatch` once the stream has
    /// ended with another digest than the one requested.
    pub open spec fn verdict(self) -> Result<(), ErrorView> {
        if self.length > self.max_bytes {
            Err(ErrorView::MaxSizeExceeded { specifier: self.specifier, max_bytes: self.max_bytes })
        } else {
            match (self.expected, self.calculated) {
                (Some(expected), Some(calculated)) => if calculated != expected {
                    Err(
                        ErrorView::HashMismatch {
                            specifier: self.specifier,
                            expected,
                            calculated,
                        },
                    )
                } else {
                    Ok(())
                },
                _ => Ok(()),
            }
        }
    }

    /// The reading after `count` more bytes have arrived.
    pub open spec fn advanced(self, count: u64) -> ReadingView {
        ReadingView {
            length: if self.length + count > u64::MAX {
                u64::MAX
            } else {
                (self.length + count) as u64
            },
            ..self
        }
    }

    /// The reading after the stream has ended with the digest `calculated`.
    /// The digest of the first end of the stream is the one that is kept.
    pub open spec fn finished(self, calculated: Seq<u8>) -> ReadingView {
        if self.calculated is Some {
            self
        } else {
            ReadingView { calculated: Some(calculated), ..self }
        }
    }
}

impl View for Reading {
    type V = ReadingView;

    closed spec fn view(&self) -> ReadingView {
        ReadingView {
            max_bytes: self.max_bytes,
            specifier: self.specifier@,
            expected: match self.expected {
                Some(digest) => Some(digest@),
                None => None,
            },
            length: self.length,
            calculated: match self.calculated {
                Some(digest) => Some(digest@),
                None => None,
            },
        }
    }
}

impl FetchRequest {
    /// Begins to read the file of this request.
    pub fn reading(&self) -> (reading: Reading)
        ensures
            reading@ == (ReadingView {
                max_bytes: self.max_bytes,
                specifier: self.specifier@,
                expected: self@.sha256,
                length: 0,
                calculated: None,
            }),
    {
        Reading {
            max_bytes: self.max_bytes,
            specifier: self.specifier,
            expected: match &self.sha256 {
                Some(digest) => Some(slice_to_vec(digest.as_slice())),
                None => None,
            },
            length: 0,
            calculated: None,
        }
    }
}

impl Reading {
    /// Judges what was read so far.
    pub fn verdict(&self) -> (verdict: Result<(), Error>)
        ensures
            seen(verdict) == self@.verdict(),
    {
        match (&self.expected, &self.calculated) {
            (Some(expected), Some(calculated)) => fetch_sha256(
                self.length,
                self.max_bytes,
                self.specifier,
                slice_to_vec(calculated.as_slice()),
                expected.as_slice(),
            ),
            _ => fetch_max_size(self.length, self.max_bytes, self.specifier),
        }
    }

    /// Takes note of `count` more bytes that have arrived, and judges what
    /// was read so far.
    pub fn advance(&mut self, count: u64) -> (verdict: Result<(), Error>)
        ensures
            final(self)@ == old(self)@.advanced(count),
            seen(verdict) == final(self)@.verdict(),
    {
        self.length = if count > u64::MAX - self.length {
            u64::MAX
        } else {
            self.length + count
        };
        self.verdict()
    }

    /// Takes note that the stream has ended with the digest `calculated`,
    /// and judges what was read.
    pub fn finish(&mut self, calculated: Vec<u8>) -> (verdict: Result<(), Error>)
        ensures
            final(self)@ == old(self)@.finished(calculated@),
            seen(verdict) == final(self)@.verdict(),
    {
        if self.calculated.is_none() {
            self.calculated = Some(calculated);
        }
        self.verdict()
    }
}

/// A reading that takes in a whole file at once judges it as the file is
/// judged when it is fetched as metadata.
pub proof fn lemma_reading_judges_as_fetch(
    request: FetchRequestView,
    length: u64,
    calculated: Seq<u8>,
)
    ensures
        ({
            let fresh = ReadingView {
                max_bytes: request.max_bytes,
                specifier: request.specifier,
                expected: request.sha256,
                length: 0,
                calculated: None,
            };
            fresh.advanced(length).finished(calculated).verdict() == match request.sha256 {
                Some(expected) => digest_verdict(
                    length,
                    request.max_bytes,
                    request.specifier,
                    calculated,
                    expected,
                ),
                None => size_verdict(length, request.max_bytes, request.specifier),
            }
        }),
{
}

/// What was refused stays refused: no bytes that arrive later, and no later
/// end of the stream, make good a bound that was broken.
pub proof fn lemma_refused_stays_refused(reading: ReadingView, count: u64, calculated: Seq<u8>)
    requires
        reading.verdict() is Err,
    ensures
        reading.advanced(count).verdict() is Err,
        reading.finished(calculated).verdict() is Err,
{
}

/// A file is accepted at the end of its stream exactly when it has no more
/// bytes than allowed and, where a digest was requested, has that digest.
pub proof fn lemma_accepted_at_the_end(reading: ReadingView, calculated: Seq<u8>)
    requires
        reading.calculated is None,
    ensures
        reading.finished(calculated).verdict() is Ok <==> reading.length <= reading.max_bytes && (
        reading.expected matches Some(expected) ==> calculated == expected),
{
}

} // verus!
