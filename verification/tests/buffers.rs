use bytes::BytesMut;
use complete_io::buffer::store_received;

fn stored(held: &[u8], received: &[u8]) -> Vec<u8> {
    let mut buffer = BytesMut::from(held.to_vec());
    store_received(&mut buffer, received);
    buffer.to_vec()
}

#[test]
fn front_is_overwritten() {
    assert_eq!(stored(b"", b""), b"");
    assert_eq!(stored(b"0123", b""), b"0123");
    assert_eq!(stored(b"0123", b"ab"), b"ab23");
    assert_eq!(stored(b"0123", b"abcd"), b"abcd");
    assert_eq!(stored(b"0123", b"abcdef"), b"abcdef");
    assert_eq!(stored(b"", b"abcdef"), b"abcdef");
}

#[test]
fn reserve_is_used() {
    let mut buffer = BytesMut::with_capacity(100);
    let capacity = buffer.capacity();
    store_received(&mut buffer, &[7; 100]);
    assert_eq!(&buffer[..], &[7u8; 100][..]);
    assert_eq!(buffer.capacity(), capacity);
}
