use secbuf::error::IoErrorKind;
use secbuf::error::ResultExt;
use secbuf::BufferError;

#[test]
fn every_error_has_its_text() {
    assert_eq!(BufferError::PositionOutOfBounds.message(), "Position out of bounds");
    assert_eq!(BufferError::IncrementTooLarge.message(), "Increment too large");
    assert_eq!(BufferError::SizeTooBig.message(), "Buffer size too big");
    assert_eq!(BufferError::BufferOverflow.message(), "Buffer overflow");
    assert_eq!(BufferError::InvalidState("x".to_string()).message(), "Invalid state: x");
    assert_eq!(BufferError::BufferFull.message(), "Circular buffer is full");
    assert_eq!(BufferError::BufferEmpty.message(), "Circular buffer is empty");
    assert_eq!(BufferError::InsufficientSpace.message(), "Insufficient space in buffer");
    assert_eq!(BufferError::InvalidString.message(), "Invalid string encoding");
    assert_eq!(BufferError::InvalidData("y".to_string()).message(), "Invalid data: y");
    assert_eq!(BufferError::Io("z".to_string()).message(), "I/O error: z");
}

#[test]
fn the_text_of_a_refused_window_names_the_lengths() {
    let buf = secbuf::Buffer::new(8);
    match buf.get_ptr(100_000_001) {
        Err(e) => assert_eq!(
            e.message(),
            "Invalid data: Requested slice length 100000001 exceeds maximum 100000000"
        ),
        Ok(_) => panic!("a window above the limit was handed out"),
    }
}

#[test]
fn io_kinds_of_buffer_errors() {
    assert_eq!(BufferError::BufferOverflow.io_kind(), IoErrorKind::WriteZero);
    assert_eq!(BufferError::InsufficientSpace.io_kind(), IoErrorKind::WriteZero);
    assert_eq!(BufferError::BufferEmpty.io_kind(), IoErrorKind::UnexpectedEof);
    assert_eq!(BufferError::BufferFull.io_kind(), IoErrorKind::Other);
    assert_eq!(BufferError::InvalidString.io_kind(), IoErrorKind::Other);
    assert_eq!(BufferError::Io("disk".to_string()).io_kind(), IoErrorKind::Other);
    assert_eq!(BufferError::Io("disk".to_string()).io_text(), "disk");
    assert_eq!(BufferError::InvalidString.io_text(), "Invalid string encoding");
    let e = BufferError::InvalidData("n".to_string());
    assert_eq!(e.clone(), e);
}

#[test]
fn the_text_of_a_refused_contiguous_window() {
    let mut ring = secbuf::CircularBuffer::new(4);
    ring.write(b"abc").unwrap();
    ring.incr_read(3).unwrap();
    match ring.write_ptr(2) {
        Err(e) => assert_eq!(
            e.message(),
            "Invalid state: contiguous write would pass the end of the ring"
        ),
        Ok(_) => panic!("a window past the end of the ring was handed out"),
    }
}

#[test]
fn test_error_conversion_io() {
    let buf_err = BufferError::BufferOverflow;
    let io_err: std::io::Error = buf_err.into();
    assert_eq!(io_err.kind(), std::io::ErrorKind::WriteZero);
}

#[test]
fn test_result_ext() {
    let result: Result<u32, BufferError> = Ok(42);
    let io_result = result.into_io();
    assert_eq!(io_result.unwrap(), 42);
}

#[test]
fn io_errors_carry_kind_and_text() {
    let empty: std::io::Error = BufferError::BufferEmpty.into();
    assert_eq!(empty.kind(), std::io::ErrorKind::UnexpectedEof);
    assert_eq!(empty.to_string(), "Circular buffer is empty");
    let space: std::io::Error = BufferError::InsufficientSpace.into();
    assert_eq!(space.kind(), std::io::ErrorKind::WriteZero);
    let inner: std::io::Error = BufferError::Io("disk gone".to_string()).into();
    assert_eq!(inner.kind(), std::io::ErrorKind::Other);
    assert_eq!(inner.to_string(), "disk gone");
    let other: std::io::Error = BufferError::SizeTooBig.into();
    assert_eq!(other.kind(), std::io::ErrorKind::Other);
    assert_eq!(other.to_string(), "Buffer size too big");

    let back: BufferError = std::io::Error::new(std::io::ErrorKind::NotFound, "no file").into();
    assert_eq!(back, BufferError::Io("no file".to_string()));

    let failed: Result<u32, BufferError> = Err(BufferError::BufferOverflow);
    assert_eq!(failed.into_io().unwrap_err().kind(), std::io::ErrorKind::WriteZero);
}
