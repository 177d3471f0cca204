use secbuf::buffer::BUF_MAX_SIZE;
use secbuf::Buffer;
use secbuf::BufferError;

#[test]
fn test_burn_and_free_memory() {
    let mut buf = Buffer::new(1024);
    buf.put_bytes(b"sensitive").unwrap();

    let initial_cap = buf.capacity();
    assert_eq!(initial_cap, 1024);

    buf.burn_and_free_memory();

    assert_eq!(buf.len(), 0);
    assert_eq!(buf.capacity(), 0);
}

#[test]
fn test_reset_and_trim() {
    let mut buf = Buffer::new(65536);
    buf.put_bytes(b"small").unwrap();

    buf.reset_and_trim(1024);

    assert!(buf.capacity() <= 4096);
    assert_eq!(buf.len(), 0);
}

#[test]
fn test_reset_and_trim_no_shrink() {
    let mut buf = Buffer::new(4096);
    buf.put_bytes(b"data").unwrap();

    buf.reset_and_trim(2048);

    assert_eq!(buf.capacity(), 4096);
}

#[test]
fn test_is_wasteful() {
    let buf = Buffer::new(65536);
    assert!(buf.is_wasteful());

    let mut buf = Buffer::new(65536);
    buf.put_bytes(b"tiny").unwrap();
    assert!(buf.is_wasteful());

    let mut buf2 = Buffer::new(1024);
    buf2.put_bytes(&vec![0u8; 1000]).unwrap();
    assert!(!buf2.is_wasteful());
}

#[test]
fn test_aggressive_shrink() {
    let mut buf = Buffer::new(8192);
    buf.put_bytes(b"data").unwrap();

    buf.aggressive_shrink(0);

    assert_eq!(buf.len(), 0);
    assert_eq!(buf.capacity(), 0);
}

#[test]
fn test_aggressive_shrink_keep_size() {
    let mut buf = Buffer::new(8192);
    buf.put_bytes(b"data").unwrap();

    buf.aggressive_shrink(1024);

    assert_eq!(buf.len(), 0);
    assert_eq!(buf.capacity(), 1024);
}

#[test]
fn test_memory_overhead() {
    let mut buf = Buffer::new(1024);
    assert_eq!(buf.memory_overhead(), 1024);

    buf.put_bytes(&vec![0u8; 512]).unwrap();
    assert_eq!(buf.memory_overhead(), 512);
}

#[test]
fn buffer_construction_checks_the_size() {
    assert!(matches!(Buffer::try_new(BUF_MAX_SIZE + 1), Err(BufferError::SizeTooBig)));
    assert!(matches!(Buffer::try_with_capacity(BUF_MAX_SIZE + 1), Err(BufferError::SizeTooBig)));
    let b = Buffer::try_new(16).unwrap();
    assert_eq!((b.capacity(), b.len(), b.pos()), (16, 0, 0));
    let c = Buffer::try_with_capacity(16).unwrap();
    assert_eq!((c.capacity(), c.len(), c.pos()), (16, 0, 0));
    let d = Buffer::with_capacity(8);
    assert_eq!((d.capacity(), d.len(), d.is_empty()), (8, 0, true));
    let e = Buffer::from_vec(vec![1, 2, 3, 4, 5]);
    assert_eq!((e.capacity(), e.len(), e.pos()), (5, 5, 0));
    assert_eq!(e.as_slice(), &[1, 2, 3, 4, 5]);
}

#[test]
fn cursor_and_length_stay_ordered() {
    let mut buf = Buffer::new(10);
    assert_eq!(buf.set_len(11), Err(BufferError::PositionOutOfBounds));
    buf.set_len(8).unwrap();
    assert_eq!(buf.set_pos(9), Err(BufferError::PositionOutOfBounds));
    buf.set_pos(8).unwrap();
    buf.set_len(5).unwrap();
    assert_eq!((buf.pos(), buf.len()), (5, 5));
    assert_eq!(buf.incr_pos(1), Err(BufferError::PositionOutOfBounds));
    assert_eq!(buf.incr_pos(1_000_000_001), Err(BufferError::IncrementTooLarge));
    assert_eq!(buf.incr_len(1_000_000_001), Err(BufferError::IncrementTooLarge));
    assert_eq!(buf.incr_len(6), Err(BufferError::PositionOutOfBounds));
    buf.incr_len(5).unwrap();
    buf.incr_pos(5).unwrap();
    assert_eq!((buf.pos(), buf.len(), buf.remaining()), (10, 10, 0));
    assert_eq!(buf.incr_write_pos(1), Err(BufferError::PositionOutOfBounds));
    buf.reset();
    assert_eq!((buf.pos(), buf.len(), buf.capacity()), (0, 0, 10));
}

#[test]
fn burn_zeroes_the_whole_region() {
    let mut buf = Buffer::new(32);
    buf.put_bytes(&[0xFF; 32]).unwrap();
    buf.set_len(7).unwrap();
    buf.burn();
    assert_eq!((buf.pos(), buf.len(), buf.capacity()), (0, 0, 32));
    buf.set_len(32).unwrap();
    assert_eq!(buf.as_slice(), &[0u8; 32]);
}

#[test]
fn clear_keeps_the_bytes() {
    let mut buf = Buffer::new(8);
    buf.put_bytes(&[1, 2, 3]).unwrap();
    buf.clear();
    assert!(buf.is_empty());
    buf.set_len(3).unwrap();
    assert_eq!(buf.as_slice(), &[1, 2, 3]);
}

#[test]
fn resize_cuts_and_grows() {
    let mut buf = Buffer::new(8);
    buf.put_bytes(&[1, 2, 3, 4, 5, 6]).unwrap();
    assert_eq!(buf.resize(BUF_MAX_SIZE + 1), Err(BufferError::SizeTooBig));
    buf.resize(4).unwrap();
    assert_eq!((buf.capacity(), buf.len(), buf.pos()), (4, 4, 4));
    buf.resize(6).unwrap();
    buf.set_len(6).unwrap();
    assert_eq!(buf.as_slice(), &[1, 2, 3, 4, 0, 0]);
}

#[test]
fn shrink_to_fit_and_reserve() {
    let mut buf = Buffer::new(1024);
    buf.put_bytes(b"hello").unwrap();
    buf.reserve(100);
    assert_eq!((buf.capacity(), buf.len(), buf.pos()), (1024, 5, 5));
    buf.shrink_to_fit();
    assert_eq!(buf.capacity(), 5);
    assert_eq!(buf.as_slice(), b"hello");
}

#[test]
fn waste_is_judged_at_the_boundaries() {
    assert!(!Buffer::new(8192).is_wasteful());
    assert!(Buffer::new(8193).is_wasteful());
    let mut buf = Buffer::new(8196);
    buf.set_len(2049).unwrap();
    assert!(!buf.is_wasteful());
    buf.set_len(2048).unwrap();
    assert!(buf.is_wasteful());

    let mut keep = Buffer::new(8196);
    keep.reset_and_trim(2049);
    assert_eq!(keep.capacity(), 8196);
    keep.reset_and_trim(2048);
    assert_eq!(keep.capacity(), 2048);
}

#[test]
fn clone_unsecure_is_independent() {
    let mut a = Buffer::new(8);
    a.put_bytes(&[1, 2, 3]).unwrap();
    let mut b = a.clone_unsecure();
    b.set_pos(0).unwrap();
    b.put_byte(9).unwrap();
    assert_eq!(a.as_slice(), &[1, 2, 3]);
    assert_eq!(b.as_slice(), &[9, 2, 3]);
    assert_eq!(b.pos(), 1);
    a.burn_free();
}

#[test]
fn a_buffer_is_a_view_of_its_valid_data() {
    let mut buf = Buffer::new(8);
    buf.put_bytes(&[4, 5, 6]).unwrap();
    let bytes: &[u8] = buf.as_ref();
    assert_eq!(bytes, &[4, 5, 6]);
}
