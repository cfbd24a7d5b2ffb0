use std::io;

use dio::errors::{DataStoreError, LibError};

#[test]
fn it_lorem() {
    let err = LibError::IOError(io::Error::new(io::ErrorKind::Other, "lorem ipsum"));
    assert_eq!(err.message(), "lorem ipsum");

    let err = LibError::BadThingHappened;
    assert_eq!(err.message(), "Oops it blew up");
}

#[test]
#[should_panic]
fn it_panics() {
    let err = LibError::IOError(io::Error::new(io::ErrorKind::Other, "lorem ipsum"));
    panic!("{}", err.message());
}

#[test]
fn it_works() -> Result<(), LibError> {
    Ok(())
}

#[test]
fn it_match() {
    let err = LibError::IOError(io::Error::new(io::ErrorKind::Other, "lorem ipsum"));
    match err {
        LibError::IOError(x) => {
            assert_eq!(format!("{}", x), "lorem ipsum");
        }
        LibError::BadThingHappened => {
            unreachable!("{}", err.message());
        }
    }
}

#[test]
fn data_store_error_messages() {
    assert_eq!(DataStoreError::EmptySource.message(), "Source contains no data");
    assert_eq!(
        DataStoreError::ReadError {
            source: io::Error::new(io::ErrorKind::BrokenPipe, "read: broken pipe")
        }
        .message(),
        "Read error"
    );
    assert_eq!(DataStoreError::Unknown.message(), "unknown data store error");
    let wrapped = DataStoreError::IOError(io::Error::new(io::ErrorKind::Other, "disk on fire"));
    assert_eq!(wrapped.message(), "disk on fire");
}
