//! The provider for the compact binary molecular format.
//!
//! Resources live under `{uri}/v{version}/{representation}/`, and every
//! filename ends in `.mmtf.gz`: the format has no uncompressed variant, so
//! no configuration field influences the extension.

use vstd::prelude::*;

use crate::{Downloader, ExtFormatter, UrlFormatter};

verus! {

/// Configuration of the binary-format provider. Built once through the
/// builder methods; a fetch only ever sees a fully formed snapshot.
pub struct MmtfDownloader<'a> {
    pub version: &'a str,
    pub uri: &'a str,
    pub representation: &'a str,
}

impl<'a> Default for MmtfDownloader<'a> {
    fn default() -> (r: Self)
        ensures
            r.version@ == "1.0"@,
            r.uri@ == "https://mmtf.rcsb.org"@,
            r.representation@ == "full"@,
    {
        MmtfDownloader { version: "1.0", uri: "https://mmtf.rcsb.org", representation: "full" }
    }
}

impl<'a> MmtfDownloader<'a> {
    pub fn new() -> (r: MmtfDownloader<'a>)
        ensures
            r.version@ == "1.0"@,
            r.uri@ == "https://mmtf.rcsb.org"@,
            r.representation@ == "full"@,
    {
        Self::default()
    }

    /// Overrides the API version; every other field is kept.
    pub fn with_version(self, version: &'a str) -> (r: Self)
        ensures
            r.version@ == version@,
            r.uri@ == self.uri@,
            r.representation@ == self.representation@,
    {
        MmtfDownloader { version, ..self }
    }

    /// Overrides the structural representation; every other field is kept.
    pub fn with_representation(self, representation: &'a str) -> (r: Self)
        ensures
            r.version@ == self.version@,
            r.uri@ == self.uri@,
            r.representation@ == representation@,
    {
        MmtfDownloader { representation, ..self }
    }

    /// Overrides the base URI; every other field is kept.
    pub fn with_uri(self, uri: &'a str) -> (r: Self)
        ensures
            r.version@ == self.version@,
            r.uri@ == uri@,
            r.representation@ == self.representation@,
    {
        MmtfDownloader { uri, ..self }
    }

    /// Freezes the accumulated overrides into a configuration snapshot.
    pub fn build(self) -> (r: MmtfDownloader<'a>)
        ensures
            r.version@ == self.version@,
            r.uri@ == self.uri@,
            r.representation@ == self.representation@,
    {
        MmtfDownloader { version: self.version, uri: self.uri, representation: self.representation }
    }
}

impl<'a> ExtFormatter for MmtfDownloader<'a> {
    open spec fn spec_ext(&self, id: Seq<char>) -> Seq<char> {
        id + ".mmtf.gz"@
    }

    fn format_ext(&self, id: &str) -> (r: String) {
        let mut s = String::from_str(id);
        s.append(".mmtf.gz");
        s
    }
}

impl<'a> UrlFormatter for MmtfDownloader<'a> {
    open spec fn spec_url(&self) -> Seq<char> {
        self.uri@ + "/v"@ + self.version@ + "/"@ + self.representation@ + "/"@
    }

    fn format_url(&self) -> (r: String) {
        let mut s = String::from_str(self.uri);
        s.append("/v");
        s.append(self.version);
        s.append("/");
        s.append(self.representation);
        s.append("/");
        s
    }
}

impl<'a> Downloader for MmtfDownloader<'a> {
    fn prepare_url(&self, id: &str) -> (r: String) {
        let url = self.format_url();
        let ext = self.format_ext(id);
        url.concat(ext.as_str())
    }
}

/// A builder override rewrites exactly the URL segment of the field it
/// touches: a configuration that agrees with another on the base URI and
/// the representation derives a URL that differs in the version segment
/// alone.
pub proof fn lemma_version_changes_only_its_segment(a: MmtfDownloader, b: MmtfDownloader)
    requires
        b.uri@ == a.uri@,
        b.representation@ == a.representation@,
    ensures
        b.spec_url() == a.uri@ + "/v"@ + b.version@ + "/"@ + a.representation@ + "/"@,
{
}

/// The binary-format extension is configuration-independent: any two
/// configurations, however built, derive the same filename from the same
/// identifier.
pub proof fn lemma_ext_independent_of_config(
    a: MmtfDownloader,
    b: MmtfDownloader,
    id: Seq<char>,
)
    ensures
        a.spec_ext(id) == b.spec_ext(id),
{
}

} // verus!
