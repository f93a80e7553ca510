//! Turning a library reference into an artifact record: the address to fetch,
//! a sink that hashes and counts the content as it streams through, and the
//! record made of what the sink saw.

use vstd::prelude::*;
use crate::coordinate::{coordinate_path, parse_coordinate};
use crate::error::Error;
use crate::library::{
    Artifact, Download, FabricStyleLibrary, RecordText, ReferenceText, VanillaStyleLibrary,
};
use crate::text::copy_text;

verus! {

/// SHA-1 is defined for messages of fewer than 2^64 bits, that is, of fewer
/// than this many bytes.
pub const SHA1_LIMIT: u64 = 0x2000_0000_0000_0000;

/// The running state of a SHA-1 computation, kept by the `sha1` crate.
#[verifier::external_body]
pub struct Sha1State {
    inner: sha1::Sha1,
}

/// The bytes that a SHA-1 state has taken in so far, in their order.
pub uninterp spec fn absorbed(state: Sha1State) -> Seq<u8>;

/// The SHA-1 digest of a message.
pub uninterp spec fn sha1_digest(message: Seq<u8>) -> Seq<u8>;

/// `sha1::Digest::new` for `Sha1`: a state that has taken in nothing.
#[verifier::external_body]
fn sha1_new() -> (state: Sha1State)
    ensures
        absorbed(state) == Seq::<u8>::empty(),
{
    Sha1State { inner: <sha1::Sha1 as sha1::Digest>::new() }
}

/// `sha1::Digest::update` for `Sha1`: the state takes in `data` after what it
/// has, and the call does not panic. The message is kept within the length
/// that SHA-1 is defined for.
#[verifier::external_body]
fn sha1_update(state: &mut Sha1State, data: &[u8])
    requires
        absorbed(*old(state)).len() + data@.len() < SHA1_LIMIT,
    ensures
        absorbed(*final(state)) == absorbed(*old(state)) + data@,
    no_unwind
{
    sha1::Digest::update(&mut state.inner, data)
}

/// `sha1::Digest::finalize` for `Sha1`: the 20 bytes of the digest of what
/// the state has taken in.
#[verifier::external_body]
fn sha1_finalize(state: Sha1State) -> (digest: Vec<u8>)
    requires
        absorbed(state).len() < SHA1_LIMIT,
    ensures
        digest@ == sha1_digest(absorbed(state)),
        digest@.len() == 20,
{
    sha1::Digest::finalize(state.inner).to_vec()
}

/// The hex digit of a value below 16, in lower case.
pub open spec fn hex_digit(n: int) -> char {
    "0123456789abcdef"@[n]
}

/// Two lower-case hex digits for each byte, the high half first.
pub open spec fn lower_hex(bytes: Seq<u8>) -> Seq<char> {
    Seq::new(
        2 * bytes.len(),
        |i: int|
            if i % 2 == 0 {
                hex_digit(bytes[i / 2] as int / 16)
            } else {
                hex_digit(bytes[i / 2] as int % 16)
            },
    )
}

/// `base16ct::lower::encode_string`: the bytes in lower-case hex. It panics
/// on an input of more than `usize::MAX / 2` bytes.
#[verifier::external_body]
fn hex_string(bytes: &[u8]) -> (hex: String)
    requires
        bytes@.len() <= usize::MAX / 2,
    ensures
        hex@ == lower_hex(bytes@),
{
    base16ct::lower::encode_string(bytes)
}

/// A SHA-1 state with the number of bytes it has taken in.
struct Tally {
    state: Sha1State,
    count: u64,
}

impl Tally {
    spec fn wf(self) -> bool {
        self.count == absorbed(self.state).len() && self.count < SHA1_LIMIT
    }

    /// Hashes and counts one chunk of `n` bytes that fits.
    fn take(&mut self, chunk: &[u8], n: u64)
        requires
            old(self).wf(),
            n == chunk@.len(),
            old(self).count + n < SHA1_LIMIT,
        ensures
            final(self).wf(),
            absorbed(final(self).state) == absorbed(old(self).state) + chunk@,
        no_unwind
    {
        sha1_update(&mut self.state, chunk);
        self.count = self.count + n;
    }
}

/// Takes the content of one artifact as it arrives, hashing and counting it,
/// so that no more than one chunk is held at a time.
pub struct ArtifactSink {
    tally: Tally,
}

impl ArtifactSink {
    #[verifier::type_invariant]
    spec fn inv(self) -> bool {
        self.tally.wf()
    }

    /// The bytes written so far.
    pub closed spec fn bytes(self) -> Seq<u8> {
        absorbed(self.tally.state)
    }

    /// A sink that has seen nothing.
    pub fn new() -> (sink: ArtifactSink)
        ensures
            sink.bytes() == Seq::<u8>::empty(),
    {
        ArtifactSink { tally: Tally { state: sha1_new(), count: 0 } }
    }

    /// Takes one chunk. A stream too long to hash and count is refused with
    /// `LengthUnavailable`, and the sink stays as it was.
    pub fn write(&mut self, chunk: &[u8]) -> (r: Result<(), Error>)
        ensures
            old(self).bytes().len() + chunk@.len() < SHA1_LIMIT ==> r is Ok && final(self).bytes()
                == old(self).bytes() + chunk@,
            old(self).bytes().len() + chunk@.len() >= SHA1_LIMIT ==> r == Err::<(), Error>(
                Error::LengthUnavailable,
            ) && final(self).bytes() == old(self).bytes(),
    {
        proof {
            use_type_invariant(&*self);
        }
        let n = chunk.len() as u64;
        if n >= SHA1_LIMIT - self.tally.count {
            return Err(Error::LengthUnavailable);
        }
        self.tally.take(chunk, n);
        Ok(())
    }

    /// The number of bytes written so far.
    pub fn count(&self) -> (n: u64)
        ensures
            n == self.bytes().len(),
    {
        proof {
            use_type_invariant(self);
        }
        self.tally.count
    }

    /// Ends the stream: the SHA-1 of the content in 40 lower-case hex digits,
    /// and its size, which is the declared length where there is one and the
    /// number of bytes written where there is none.
    pub fn finish(self, declared_length: Option<u64>) -> (r: (String, u64))
        ensures
            r.0@ == lower_hex(sha1_digest(self.bytes())),
            r.0@.len() == 40,
            match declared_length {
                Some(n) => r.1 == n,
                None => r.1 == self.bytes().len(),
            },
    {
        proof {
            use_type_invariant(&self);
        }
        let size = match declared_length {
            Some(n) => n,
            None => self.tally.count,
        };
        let digest = sha1_finalize(self.tally.state);
        let hex = hex_string(digest.as_slice());
        (hex, size)
    }
}

/// The address an artifact is fetched from: the repository's base URL, or
/// nothing where the reference names none, followed by the path.
pub open spec fn download_url_spec(base: Option<Seq<char>>, path: Seq<char>) -> Seq<char> {
    match base {
        Some(base) => base + path,
        None => path,
    }
}

/// The record of a reference whose artifact had this content and, where the
/// server declared one, this length. A reference whose name is no coordinate
/// has none.
pub open spec fn resolved(l: ReferenceText, content: Seq<u8>, declared_length: Option<u64>)
    -> Option<RecordText> {
    match parse_coordinate(l.name) {
        Some(c) => Some(
            RecordText {
                name: l.name,
                sha1: lower_hex(sha1_digest(content)),
                size: match declared_length {
                    Some(n) => n,
                    None => content.len() as u64,
                },
                url: download_url_spec(l.url, coordinate_path(c)),
                path: coordinate_path(c),
            },
        ),
        None => None,
    }
}

/// Whether a status code reports success: `NetworkError` for any outside
/// 200 to 299.
pub fn check_status(status: u16) -> (r: Result<(), Error>)
    ensures
        r == (if 200 <= status <= 299 {
            Ok::<(), Error>(())
        } else {
            Err::<(), Error>(Error::NetworkError(status))
        }),
{
    if 200 <= status && status <= 299 {
        Ok(())
    } else {
        Err(Error::NetworkError(status))
    }
}

impl FabricStyleLibrary {
    /// Whether the reference names no repository. Such a library is made at
    /// install time, so there is nothing to fetch for it: it goes into a
    /// manifest as the reference it is.
    pub fn names_no_repository(&self) -> (r: bool)
        ensures
            r == (self@.url is None),
    {
        self.url.is_none()
    }

    /// The address to fetch the artifact from; `MalformedCoordinate` where
    /// the name is no coordinate.
    pub fn download_url(&self) -> (r: Result<String, Error>)
        ensures
            match r {
                Ok(url) => parse_coordinate(self.name@) is Some && url@ == download_url_spec(
                    self@.url,
                    coordinate_path(parse_coordinate(self.name@)->0),
                ),
                Err(e) => e == Error::MalformedCoordinate && parse_coordinate(self.name@) is None,
            },
    {
        let path = match self.try_path() {
            Ok(path) => path,
            Err(e) => {
                return Err(e);
            },
        };
        match &self.url {
            Some(base) => {
                let mut url = copy_text(base);
                url.append(path.as_str());
                Ok(url)
            },
            None => Ok(path),
        }
    }

    /// Makes the artifact record out of what the sink saw of the content and
    /// of the length that the server declared, if it declared one;
    /// `MalformedCoordinate` where the name is no coordinate.
    pub fn resolve(self, sink: ArtifactSink, declared_length: Option<u64>) -> (r: Result<
        VanillaStyleLibrary,
        Error,
    >)
        ensures
            match r {
                Ok(record) => resolved(self@, sink.bytes(), declared_length) == Some(record@),
                Err(e) => e == Error::MalformedCoordinate && resolved(
                    self@,
                    sink.bytes(),
                    declared_length,
                ) is None,
            },
            r is Ok ==> r->Ok_0@.sha1.len() == 40,
            r is Ok && declared_length is None ==> r->Ok_0@.size == sink.bytes().len(),
    {
        let path = match self.try_path() {
            Ok(path) => path,
            Err(e) => {
                return Err(e);
            },
        };
        let url = match &self.url {
            Some(base) => {
                let mut url = copy_text(base);
                url.append(path.as_str());
                url
            },
            None => copy_text(&path),
        };
        let (sha1, size) = sink.finish(declared_length);
        Ok(
            VanillaStyleLibrary {
                name: self.name,
                downloads: Download { artifact: Artifact { sha1, size, url, path } },
            },
        )
    }
}

} // verus!
