use pdb_downloader::PdbDownloader;
use pdb_downloader::{ExtFormatter, UrlFormatter};

#[test]
fn pdb_default_url() {
    let pdb = PdbDownloader::new();
    assert_eq!(pdb.format_url(), "https://files.rcsb.org/download/");
}

#[test]
fn pdb_with_compression() {
    let pdb = PdbDownloader::new().with_compression("uncompressed").build();
    assert_eq!(pdb.format_ext("1hh3"), "1hh3.pdb1");
    let pdb = PdbDownloader::new();
    assert_eq!(pdb.format_ext("1hh3"), "1hh3.pdb1.gz");
}
