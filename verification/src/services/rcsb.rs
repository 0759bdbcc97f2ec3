//! The binary-format provider of the RCSB service, addressed directly by
//! its URL template `{uri}/v{version}/{representation}/`.

use vstd::prelude::*;

verus! {

/// Configuration of the RCSB binary-format endpoint. Built once through the
/// builder methods; a download only ever sees a fully formed snapshot.
pub struct Mmtf<'a> {
    pub version: &'a str,
    pub uri: &'a str,
    pub representation: &'a str,
}

impl<'a> Default for Mmtf<'a> {
    fn default() -> (r: Self)
        ensures
            r.version@ == "1.0"@,
            r.uri@ == "https://mmtf.rcsb.org"@,
            r.representation@ == "full"@,
    {
        Mmtf { version: "1.0", uri: "https://mmtf.rcsb.org", representation: "full" }
    }
}

impl<'a> Mmtf<'a> {
    pub fn new() -> (r: Mmtf<'a>)
        ensures
            r.version@ == "1.0"@,
            r.uri@ == "https://mmtf.rcsb.org"@,
            r.representation@ == "full"@,
    {
        Self::default()
    }

    /// Overrides the API version; every other field is kept.
    pub fn with_version(self, version: &'a str) -> (r: Self)
        ensures
            r.version@ == version@,
            r.uri@ == self.uri@,
            r.representation@ == self.representation@,
    {
        Mmtf { version, ..self }
    }

    /// Overrides the structural representation; every other field is kept.
    pub fn with_representation(self, representation: &'a str) -> (r: Self)
        ensures
            r.version@ == self.version@,
            r.uri@ == self.uri@,
            r.representation@ == representation@,
    {
        Mmtf { representation, ..self }
    }

    /// Overrides the base URI; every other field is kept.
    pub fn with_uri(self, uri: &'a str) -> (r: Self)
        ensures
            r.version@ == self.version@,
            r.uri@ == uri@,
            r.representation@ == self.representation@,
    {
        Mmtf { uri, ..self }
    }

    /// Freezes the accumulated overrides into a configuration snapshot.
    pub fn build(self) -> (r: Mmtf<'a>)
        ensures
            r.version@ == self.version@,
            r.uri@ == self.uri@,
            r.representation@ == self.representation@,
    {
        Mmtf { version: self.version, uri: self.uri, representation: self.representation }
    }

    /// The base URL this configuration addresses.
    pub open spec fn spec_url(&self) -> Seq<char> {
        self.uri@ + "/v"@ + self.version@ + "/"@ + self.representation@ + "/"@
    }

    pub fn url(&self) -> (r: String)
        ensures
            r@ == self.spec_url(),
    {
        let mut s = String::from_str(self.uri);
        s.append("/v");
        s.append(self.version);
        s.append("/");
        s.append(self.representation);
        s.append("/");
        s
    }
}

} // verus!
