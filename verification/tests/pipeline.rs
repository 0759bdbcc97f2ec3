use pdb_downloader::{
    check_destination, handle_response, response_payload, DownloaderError, MmtfDownloader,
    PdbDownloader, TransientFile,
};
use pdb_downloader::{Downloader, ExtFormatter};

#[test]
fn mmtf_ext_is_configuration_independent() {
    let default = MmtfDownloader::new();
    assert_eq!(default.format_ext("173D"), "173D.mmtf.gz");
    let custom = MmtfDownloader::new()
        .with_version("2.0")
        .with_representation("reduced")
        .with_uri("localhost")
        .build();
    assert_eq!(custom.format_ext("173D"), "173D.mmtf.gz");
}

#[test]
fn mmtf_prepare_url_joins_base_and_ext() {
    let mmtf = MmtfDownloader::new();
    assert_eq!(
        mmtf.prepare_url("173D"),
        "https://mmtf.rcsb.org/v1.0/full/173D.mmtf.gz"
    );
}

#[test]
fn pdb_prepare_url_joins_base_and_ext() {
    let pdb = PdbDownloader::new();
    assert_eq!(
        pdb.prepare_url("1hh3"),
        "https://files.rcsb.org/download/1hh3.pdb1.gz"
    );
    let plain = PdbDownloader::new().with_compression("none").build();
    assert_eq!(
        plain.prepare_url("1hh3"),
        "https://files.rcsb.org/download/1hh3.pdb1"
    );
}

#[test]
fn success_response_buffers_exact_body() {
    let body = vec![1u8, 2, 3, 4, 5];
    let mut file = handle_response(Ok((200, body.clone()))).unwrap();
    assert_eq!(file.len(), 5);
    let read = file.read_to_end();
    assert_eq!(read, body);
    // position is now at the end; a second read yields nothing
    assert_eq!(file.read_to_end(), Vec::<u8>::new());
    // until the handle is rewound
    file.rewind();
    assert_eq!(file.read_to_end(), body);
}

#[test]
fn non_success_status_is_a_request_error() {
    let res = handle_response(Ok((404, vec![9u8])));
    assert!(matches!(res, Err(DownloaderError::Request(404))));
    let res = handle_response(Ok((500, Vec::new())));
    assert!(matches!(res, Err(DownloaderError::Request(500))));
}

#[test]
fn transport_failure_is_a_transport_error() {
    let res = handle_response(Err("connection refused".to_string()));
    match res {
        Err(DownloaderError::Transport(m)) => assert_eq!(m, "connection refused"),
        _ => panic!("expected a transport error"),
    }
}

#[test]
fn saved_payload_round_trips_response_body() {
    let body = vec![0u8, 255, 42, 7];
    let saved = response_payload(Ok((200, body.clone()))).unwrap();
    assert_eq!(saved, body);
    let empty = response_payload(Ok((200, Vec::new()))).unwrap();
    assert_eq!(empty, Vec::<u8>::new());
}

#[test]
fn payload_of_failed_fetch_propagates_the_error() {
    assert!(matches!(
        response_payload(Ok((404, Vec::new()))),
        Err(DownloaderError::Request(404))
    ));
    assert!(matches!(
        response_payload(Err("timed out".to_string())),
        Err(DownloaderError::Transport(_))
    ));
}

#[test]
fn destination_must_be_a_directory() {
    assert!(check_destination("some/dir", true).is_ok());
    match check_destination("src/lib.rs", false) {
        Err(DownloaderError::Io(m)) => assert_eq!(m, "Invalid path: `src/lib.rs`"),
        _ => panic!("expected an io error"),
    }
}

#[test]
fn two_fetches_yield_independent_identical_handles() {
    let body = vec![10u8, 20, 30];
    let mut first = handle_response(Ok((200, body.clone()))).unwrap();
    let mut second = handle_response(Ok((200, body.clone()))).unwrap();
    let first_bytes = first.read_to_end();
    // draining the first handle does not disturb the second
    let second_bytes = second.read_to_end();
    assert_eq!(first_bytes, second_bytes);
    assert_eq!(first_bytes, body);
}

#[test]
fn transient_file_from_bytes_starts_at_the_beginning() {
    let mut file = TransientFile::from_bytes(vec![8u8, 9]);
    assert_eq!(file.len(), 2);
    assert_eq!(file.read_to_end(), vec![8u8, 9]);
}
