use bunny_storage::Reply;
use bunny_storage::StorageError;

#[test]
fn status_200_is_accepted() {
    assert_eq!(Reply::Status(200).accept(), Ok(()));
}

#[test]
fn every_2xx_status_is_accepted() {
    for status in 200u16..=299 {
        assert_eq!(Reply::Status(status).accept(), Ok(()));
    }
}

#[test]
fn status_199_is_rejected() {
    assert_eq!(Reply::Status(199).accept(), Err(StorageError::Rejected(199)));
}

#[test]
fn status_300_is_rejected() {
    assert_eq!(Reply::Status(300).accept(), Err(StorageError::Rejected(300)));
}

#[test]
fn redirects_and_informational_statuses_are_rejected() {
    for status in [100u16, 101, 301, 302, 304, 399] {
        assert_eq!(Reply::Status(status).accept(), Err(StorageError::Rejected(status)));
    }
}

#[test]
fn not_found_and_server_error_are_not_told_apart() {
    let not_found = Reply::Status(404).accept();
    let server_error = Reply::Status(500).accept();
    assert_eq!(not_found, Err(StorageError::Rejected(404)));
    assert_eq!(server_error, Err(StorageError::Rejected(500)));
    match (not_found, server_error) {
        (Err(a), Err(b)) => assert_eq!(a.cause(), b.cause()),
        _ => panic!("both are failures"),
    }
}

#[test]
fn every_status_outside_2xx_is_rejected() {
    for status in (0u16..200).chain(300..=1000).chain([u16::MAX]) {
        assert_eq!(Reply::Status(status).accept(), Err(StorageError::Rejected(status)));
    }
}

#[test]
fn no_response_is_a_transport_failure() {
    assert_eq!(
        Reply::NoResponse("dns error".to_string()).accept(),
        Err(StorageError::Transport("dns error".to_string()))
    );
}

#[test]
fn cause_of_a_transport_failure_is_what_the_transport_reported() {
    assert_eq!(StorageError::Transport("timed out".to_string()).cause(), "timed out");
}

#[test]
fn cause_of_a_failed_read_is_what_the_reader_reported() {
    assert_eq!(StorageError::BodyRead("unexpected end of file".to_string()).cause(), "unexpected end of file");
}

#[test]
fn cause_of_a_rejection() {
    assert_eq!(StorageError::Rejected(403).cause(), "the response status is not in the 2xx class");
}

#[test]
fn cause_of_an_unknown_reference() {
    assert_eq!(StorageError::UnknownReference.cause(), "does not understand the remote file reference");
}
