//! Client-side logic for retrieving molecular structure files from a remote
//! repository: URL and filename construction for the two supported remote
//! representations, the decision logic of the fetch-then-persist pipeline,
//! and its error taxonomy.
//!
//! The network round-trip and the filesystem writes themselves live outside
//! this crate; everything here works on plain values (status codes, byte
//! buffers, paths as strings) and is verified.

use vstd::prelude::*;

pub mod mmtf;
pub mod pdb;
pub mod services;

pub use mmtf::MmtfDownloader;
pub use pdb::PdbDownloader;

verus! {

/// Why a fetch or a save failed.
///
/// `Request` carries the HTTP status of a non-success response.
/// `Io` carries a description of a local failure (an invalid destination
/// path, a failed write). `Transport` carries a description of a failure
/// below the HTTP layer (the request never produced a status at all).
#[derive(Debug)]
pub enum DownloaderError {
    Request(u16),
    Io(String),
    Transport(String),
}

/// Derives the filename suffix for a structure identifier, according to the
/// provider's configured representation and compression.
pub trait ExtFormatter {
    /// The suffix-bearing filename this provider derives from an identifier.
    spec fn spec_ext(&self, id: Seq<char>) -> Seq<char>;

    fn format_ext(&self, id: &str) -> (r: String)
        ensures
            r@ == self.spec_ext(id@),
    ;
}

/// Produces the base URL under which this provider's resources live.
pub trait UrlFormatter {
    /// The base URL this provider addresses, assembled from its configuration.
    spec fn spec_url(&self) -> Seq<char>;

    fn format_url(&self) -> (r: String)
        ensures
            r@ == self.spec_url(),
    ;
}

/// A provider whose resources can be addressed one identifier at a time:
/// the full download URL is always the base URL followed directly by the
/// extension-bearing filename.
pub trait Downloader: UrlFormatter + ExtFormatter {
    fn prepare_url(&self, id: &str) -> (r: String)
        ensures
            r@ == self.spec_url() + self.spec_ext(id@),
    ;
}

/// The raw bytes retrieved from the network, buffered and positioned.
///
/// A handle is created fresh per fetch, holds exactly the response body,
/// and starts positioned at its beginning. Reading moves the position;
/// nothing is shared between handles.
pub struct TransientFile {
    bytes: Vec<u8>,
    pos: usize,
}

impl TransientFile {
    /// The buffered bytes.
    pub closed spec fn contents(&self) -> Seq<u8> {
        self.bytes@
    }

    /// The current read position within the buffer.
    pub closed spec fn position(&self) -> int {
        self.pos as int
    }

    /// The position never passes the end of the buffer.
    pub closed spec fn wf(&self) -> bool {
        self.pos <= self.bytes.len()
    }

    /// Buffers a response body, positioned at its start.
    pub fn from_bytes(bytes: Vec<u8>) -> (r: Self)
        ensures
            r.wf(),
            r.contents() == bytes@,
            r.position() == 0,
    {
        TransientFile { bytes, pos: 0 }
    }

    /// Moves the read position back to the start of the buffer.
    pub fn rewind(&mut self)
        ensures
            final(self).wf(),
            final(self).contents() == old(self).contents(),
            final(self).position() == 0,
    {
        self.pos = 0;
    }

    pub fn len(&self) -> (r: usize)
        ensures
            r == self.contents().len(),
    {
        self.bytes.len()
    }

    /// Reads every byte from the current position to the end of the buffer,
    /// leaving the position at the end.
    pub fn read_to_end(&mut self) -> (r: Vec<u8>)
        requires
            old(self).wf(),
        ensures
            final(self).wf(),
            final(self).contents() == old(self).contents(),
            final(self).position() == old(self).contents().len(),
            r@ == old(self).contents().subrange(
                old(self).position(),
                old(self).contents().len() as int,
            ),
    {
        let mut out: Vec<u8> = Vec::new();
        let mut i: usize = self.pos;
        while i < self.bytes.len()
            invariant
                self == old(self),
                self.pos <= i <= self.bytes.len(),
                out@ == self.bytes@.subrange(self.pos as int, i as int),
            decreases self.bytes.len() - i,
        {
            out.push(self.bytes[i]);
            proof {
                assert(out@ =~= self.bytes@.subrange(self.pos as int, i + 1));
            }
            i = i + 1;
        }
        self.pos = self.bytes.len();
        out
    }

    /// The read side of the save step: re-assert the start position (the
    /// fetch pipeline already guarantees it, but the save step does not
    /// rely on that), then hand back every buffered byte for the copy.
    pub fn save_payload(&mut self) -> (r: Vec<u8>)
        ensures
            final(self).wf(),
            final(self).contents() == old(self).contents(),
            r@ == old(self).contents(),
    {
        self.rewind();
        let r = self.read_to_end();
        proof {
            assert(r@ =~= old(self).contents());
        }
        r
    }
}

/// Turns the outcome of one HTTP exchange into the pipeline's result.
///
/// The exchange is handed in as plain values: `Ok((status, body))` when the
/// server answered at all, `Err(description)` when the transport failed below
/// the HTTP layer. Exactly a 200 status succeeds, and the returned handle
/// buffers exactly the response body; any other status is a `Request` error
/// carrying that status; a transport failure is passed through as a
/// `Transport` error.
pub fn handle_response(outcome: Result<(u16, Vec<u8>), String>) -> (r: Result<
    TransientFile,
    DownloaderError,
>)
    ensures
        match outcome {
            Ok(p) => if p.0 == 200 {
                r matches Ok(f) && (f.wf() && f.contents() == p.1@ && f.position() == 0)
            } else {
                r matches Err(e) && (e matches DownloaderError::Request(s) && s == p.0)
            },
            Err(m) => r matches Err(e) && (e matches DownloaderError::Transport(t) && t@ == m@),
        },
{
    match outcome {
        Ok((status, body)) => {
            if status == 200 {
                Ok(TransientFile::from_bytes(body))
            } else {
                Err(DownloaderError::Request(status))
            }
        },
        Err(msg) => Err(DownloaderError::Transport(msg)),
    }
}

/// The whole compute side of fetch-then-persist: the bytes the save step
/// writes to the destination file, for a given HTTP outcome. On a 200
/// response they are exactly the response body (bytes in equal bytes out);
/// otherwise the fetch error propagates unchanged.
pub fn response_payload(outcome: Result<(u16, Vec<u8>), String>) -> (r: Result<
    Vec<u8>,
    DownloaderError,
>)
    ensures
        match outcome {
            Ok(p) => if p.0 == 200 {
                r matches Ok(b) && b@ == p.1@
            } else {
                r matches Err(e) && (e matches DownloaderError::Request(s) && s == p.0)
            },
            Err(m) => r matches Err(e) && (e matches DownloaderError::Transport(t) && t@ == m@),
        },
{
    match handle_response(outcome) {
        Ok(mut f) => Ok(f.save_payload()),
        Err(e) => Err(e),
    }
}

/// The message carried by the error for a destination that is not a directory.
pub open spec fn invalid_path_message(path: Seq<char>) -> Seq<char> {
    "Invalid path: `"@ + path + "`"@
}

/// The precondition of the save step: the destination must already be a
/// directory (the caller reports whether it is). A valid destination passes;
/// an invalid one is an `Io` error naming the path, and nothing is fetched
/// or written after it.
pub fn check_destination(path: &str, is_dir: bool) -> (r: Result<(), DownloaderError>)
    ensures
        is_dir ==> r is Ok,
        !is_dir ==> (r matches Err(e) && (e matches DownloaderError::Io(m) && m@
            == invalid_path_message(path@))),
{
    if is_dir {
        Ok(())
    } else {
        let mut m = String::from_str("Invalid path: `");
        m.append(path);
        m.append("`");
        Err(DownloaderError::Io(m))
    }
}

/// Two fetches that buffered equal response bodies hold equal contents:
/// a handle's contents are exactly the bytes it was built from, so no
/// caching or aliasing between handles can make them diverge.
pub proof fn lemma_equal_bodies_equal_handles(f1: TransientFile, f2: TransientFile, body: Seq<u8>)
    requires
        f1.contents() == body,
        f2.contents() == body,
    ensures
        f1.contents() == f2.contents(),
{
}

} // verus!
