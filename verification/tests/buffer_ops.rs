use secbuf::buffer::ops::MAX_PTR_LEN;
use secbuf::wire::MAX_STRING_LEN;
use secbuf::Buffer;
use secbuf::BufferError;

#[test]
fn test_get_ptr_max_len() {
    let buf = Buffer::new(1024);
    let result = buf.get_ptr(MAX_PTR_LEN + 1);
    assert!(matches!(result, Err(BufferError::InvalidData(_))));
}

#[test]
fn test_get_write_ptr_max_len() {
    let mut buf = Buffer::new(1024);
    let result = buf.get_write_ptr(MAX_PTR_LEN + 1);
    assert!(matches!(result, Err(BufferError::InvalidData(_))));
}

#[test]
fn test_put_get_u32() {
    let mut buf = Buffer::new(1024);
    buf.put_u32(0x12345678).unwrap();
    buf.set_pos(0).unwrap();
    assert_eq!(buf.get_u32().unwrap(), 0x12345678);
}

#[test]
fn test_put_get_u64() {
    let mut buf = Buffer::new(1024);
    buf.put_u64(0xDEADBEEFCAFEBABE).unwrap();
    buf.set_pos(0).unwrap();
    assert_eq!(buf.get_u64().unwrap(), 0xDEADBEEFCAFEBABE);
}

#[test]
fn test_put_get_string() {
    let mut buf = Buffer::new(1024);
    buf.put_string(b"Hello, World!").unwrap();
    buf.set_pos(0).unwrap();
    assert_eq!(buf.get_string().unwrap(), b"Hello, World!");
}

#[test]
fn test_string_too_long() {
    let mut buf = Buffer::new(10 * 1024 * 1024);
    let long_string = vec![0u8; MAX_STRING_LEN + 1];
    let result = buf.put_string(&long_string);
    assert!(matches!(result, Err(BufferError::InvalidString)));
}

#[test]
fn test_eat_string() {
    let mut buf = Buffer::new(1024);
    buf.put_string(b"skip this").unwrap();
    buf.put_u32(42).unwrap();

    buf.set_pos(0).unwrap();
    buf.eat_string().unwrap();
    assert_eq!(buf.get_u32().unwrap(), 42);
}

#[test]
fn wire_form_is_big_endian() {
    let mut buf = Buffer::new(32);
    buf.put_u32(0x12345678).unwrap();
    buf.put_u64(0x0102030405060708).unwrap();
    buf.put_string(b"hi").unwrap();
    assert_eq!(
        buf.as_slice(),
        &[0x12, 0x34, 0x56, 0x78, 1, 2, 3, 4, 5, 6, 7, 8, 0, 0, 0, 2, b'h', b'i']
    );
    assert_eq!(buf.pos(), 18);
    assert_eq!(buf.len(), 18);
}

#[test]
fn writes_fail_at_the_capacity_and_change_nothing() {
    let mut buf = Buffer::new(6);
    buf.put_u32(7).unwrap();
    assert_eq!(buf.put_u32(8), Err(BufferError::BufferOverflow));
    assert_eq!(buf.put_u64(8), Err(BufferError::BufferOverflow));
    assert_eq!(buf.put_bytes(&[1, 2, 3]), Err(BufferError::BufferOverflow));
    assert_eq!(buf.pos(), 4);
    assert_eq!(buf.len(), 4);
    buf.put_bytes(&[1, 2]).unwrap();
    assert_eq!(buf.put_byte(9), Err(BufferError::BufferOverflow));
    assert_eq!(buf.as_slice(), &[0, 0, 0, 7, 1, 2]);
}

#[test]
fn reads_fail_at_the_length() {
    let mut buf = Buffer::new(64);
    buf.put_bytes(&[1, 2, 3]).unwrap();
    buf.set_pos(0).unwrap();
    assert_eq!(buf.get_u32(), Err(BufferError::BufferOverflow));
    assert_eq!(buf.get_u64(), Err(BufferError::BufferOverflow));
    assert_eq!(buf.get_bytes(4), Err(BufferError::BufferOverflow));
    assert_eq!(buf.get_bytes(usize::MAX), Err(BufferError::BufferOverflow));
    assert_eq!(buf.get_bytes_ref(4), Err(BufferError::BufferOverflow));
    assert_eq!(buf.pos(), 0);
    assert_eq!(buf.get_bytes_ref(2).unwrap(), &[1, 2]);
    assert_eq!(buf.get_byte(), Ok(3));
    assert_eq!(buf.get_byte(), Err(BufferError::BufferOverflow));
    assert_eq!(buf.get_bool(), Err(BufferError::BufferOverflow));
}

#[test]
fn string_prefix_stays_when_the_body_does_not_fit() {
    let mut buf = Buffer::new(6);
    assert_eq!(buf.put_string(b"abc"), Err(BufferError::BufferOverflow));
    assert_eq!(buf.pos(), 4);
    assert_eq!(buf.as_slice(), &[0, 0, 0, 3]);

    let mut short = Buffer::new(3);
    assert_eq!(short.put_string(b""), Err(BufferError::BufferOverflow));
    assert_eq!(short.pos(), 0);
}

#[test]
fn get_string_rejects_long_and_truncated_strings() {
    let mut buf = Buffer::new(64);
    buf.put_u32(400_001).unwrap();
    buf.set_pos(0).unwrap();
    assert_eq!(buf.get_string(), Err(BufferError::InvalidString));
    assert_eq!(buf.pos(), 4);

    let mut cut = Buffer::new(64);
    cut.put_u32(5).unwrap();
    cut.put_bytes(b"abc").unwrap();
    cut.set_pos(0).unwrap();
    assert_eq!(cut.get_string(), Err(BufferError::BufferOverflow));
    assert_eq!(cut.pos(), 4);
    cut.set_pos(0).unwrap();
    assert_eq!(cut.eat_string(), Err(BufferError::PositionOutOfBounds));
    assert_eq!(cut.pos(), 4);

    let mut none = Buffer::new(64);
    assert_eq!(none.get_string(), Err(BufferError::BufferOverflow));
    assert_eq!(none.eat_string(), Err(BufferError::BufferOverflow));
}

#[test]
fn string_of_the_largest_length_is_accepted() {
    let mut buf = Buffer::new(MAX_STRING_LEN + 4);
    let s = vec![7u8; MAX_STRING_LEN];
    buf.put_string(&s).unwrap();
    buf.set_pos(0).unwrap();
    assert_eq!(buf.get_string().unwrap(), s);
}

#[test]
fn zero_copy_windows() {
    let mut buf = Buffer::new(16);
    {
        let w = buf.get_write_ptr(4).unwrap();
        w.copy_from_slice(&[9, 8, 7, 6]);
    }
    assert_eq!(buf.len(), 0);
    buf.incr_write_pos(4).unwrap();
    assert_eq!(buf.len(), 4);
    assert_eq!(buf.get_ptr(4).unwrap(), &[9, 8, 7, 6]);
    assert_eq!(buf.pos(), 0);
    assert!(matches!(buf.get_ptr(5), Err(BufferError::BufferOverflow)));
    assert!(matches!(buf.get_write_ptr(17), Err(BufferError::BufferOverflow)));
    assert_eq!(buf.get_write_ptr(16).unwrap().len(), 16);
    buf.as_mut_slice()[0] = 1;
    assert_eq!(buf.as_slice(), &[1, 8, 7, 6]);
}

#[test]
fn put_bytes_fast_writes_like_put_bytes() {
    let data = vec![0xA5u8; 200];
    let mut a = Buffer::new(256);
    let mut b = Buffer::new(256);
    a.put_bytes(&data).unwrap();
    b.put_bytes_fast(&data).unwrap();
    assert_eq!(a.as_slice(), b.as_slice());
    assert_eq!(b.put_bytes_fast(&data), Err(BufferError::BufferOverflow));
}

#[test]
fn unchecked_operations_round_trip() {
    let mut buf = Buffer::new(64);
    buf.put_u32_unchecked(0xABCDEF00);
    buf.put_u64_unchecked(0x1122334455667788);
    buf.put_bytes_unchecked(b"xyz");
    buf.set_pos(0).unwrap();
    assert_eq!(buf.get_u32_unchecked(), 0xABCDEF00);
    assert_eq!(buf.get_u64_unchecked(), 0x1122334455667788);
    assert_eq!(buf.get_bytes_unchecked(3), b"xyz");
    assert_eq!(buf.pos(), 15);
}
