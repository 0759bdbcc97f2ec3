//! The provider for the compressed structure-coordinate format.
//!
//! The base URI is used verbatim as the base URL. The filename ends in
//! `.pdb1.gz` when the configured compression is exactly `"compressed"`;
//! any other value selects the plain `.pdb1` name. Compression never
//! influences the URL path, only the extension.

use vstd::prelude::*;

use crate::{Downloader, ExtFormatter, UrlFormatter};

verus! {

/// Configuration of the coordinate-format provider. Built once through the
/// builder methods; a fetch only ever sees a fully formed snapshot.
pub struct PdbDownloader<'a> {
    pub uri: &'a str,
    pub compression: &'a str,
}

impl<'a> Default for PdbDownloader<'a> {
    fn default() -> (r: Self)
        ensures
            r.uri@ == "https://files.rcsb.org/download/"@,
            r.compression@ == "compressed"@,
    {
        PdbDownloader { uri: "https://files.rcsb.org/download/", compression: "compressed" }
    }
}

impl<'a> PdbDownloader<'a> {
    pub fn new() -> (r: PdbDownloader<'a>)
        ensures
            r.uri@ == "https://files.rcsb.org/download/"@,
            r.compression@ == "compressed"@,
    {
        Self::default()
    }

    /// Overrides the compression setting; the base URI is kept.
    pub fn with_compression(self, compression: &'a str) -> (r: Self)
        ensures
            r.uri@ == self.uri@,
            r.compression@ == compression@,
    {
        PdbDownloader { compression, ..self }
    }

    /// Overrides the base URI; the compression setting is kept.
    pub fn with_uri(self, uri: &'a str) -> (r: Self)
        ensures
            r.uri@ == uri@,
            r.compression@ == self.compression@,
    {
        PdbDownloader { uri, ..self }
    }

    /// Freezes the accumulated overrides into a configuration snapshot.
    pub fn build(self) -> (r: PdbDownloader<'a>)
        ensures
            r.uri@ == self.uri@,
            r.compression@ == self.compression@,
    {
        PdbDownloader { uri: self.uri, compression: self.compression }
    }
}

/// Character-by-character string equality, decided against the views.
fn str_eq(a: &str, b: &str) -> (r: bool)
    ensures
        r == (a@ == b@),
{
    let alen = a.unicode_len();
    let blen = b.unicode_len();
    if alen != blen {
        return false;
    }
    let mut i: usize = 0;
    while i < alen
        invariant
            i <= alen,
            alen == a@.len(),
            alen == b@.len(),
            forall|j: int| 0 <= j < i ==> a@[j] == b@[j],
        decreases alen - i,
    {
        let ca = a.get_char(i);
        let cb = b.get_char(i);
        if ca != cb {
            return false;
        }
        i = i + 1;
    }
    proof {
        assert(a@ =~= b@);
    }
    true
}

impl<'a> ExtFormatter for PdbDownloader<'a> {
    open spec fn spec_ext(&self, id: Seq<char>) -> Seq<char> {
        if self.compression@ == "compressed"@ {
            id + ".pdb1.gz"@
        } else {
            id + ".pdb1"@
        }
    }

    fn format_ext(&self, id: &str) -> (r: String) {
        let mut s = String::from_str(id);
        if str_eq(self.compression, "compressed") {
            s.append(".pdb1.gz");
        } else {
            s.append(".pdb1");
        }
        s
    }
}

impl<'a> UrlFormatter for PdbDownloader<'a> {
    open spec fn spec_url(&self) -> Seq<char> {
        self.uri@
    }

    fn format_url(&self) -> (r: String) {
        String::from_str(self.uri)
    }
}

impl<'a> Downloader for PdbDownloader<'a> {
    fn prepare_url(&self, id: &str) -> (r: String) {
        let url = self.format_url();
        let ext = self.format_ext(id);
        url.concat(ext.as_str())
    }
}

/// Compression influences the filename alone: two configurations that share
/// a base URI address the same base URL, whatever their compression
/// settings.
pub proof fn lemma_compression_never_changes_url(a: PdbDownloader, b: PdbDownloader)
    requires
        a.uri@ == b.uri@,
    ensures
        a.spec_url() == b.spec_url(),
{
}

} // verus!
