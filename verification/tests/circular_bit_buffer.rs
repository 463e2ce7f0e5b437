use dcc_bit_codec::CircularBitBuffer;

#[test]
fn push_bit_beyond_capacity_overwrites() {
    let mut buffer = CircularBitBuffer::default();

    buffer.push_bit(false);

    for _ in 0..buffer.capacity() {
        buffer.push_bit(true);
    }

    assert!(matches!(buffer.dequeue_bit(), Some(true)));
}

#[test]
fn len_returns_bit_length() {
    let mut buffer = CircularBitBuffer::new(2);
    for n in 0..buffer.capacity() {
        assert_eq!(buffer.len(), n);
        buffer.push_bit(true);
        assert_eq!(buffer.len(), n + 1);
    }
}

#[test]
fn dequeue_bit_with_default_returns_none() {
    let mut buffer = CircularBitBuffer::default();

    assert!(matches!(buffer.dequeue_bit(), None));
}

#[test]
fn len_with_default_returns_zero() {
    let buffer = CircularBitBuffer::default();

    assert_eq!(buffer.len(), 0);
}
