use plumise_agent::rlp::{
    rlp_encode_bytes, rlp_encode_list, rlp_encode_u64, strip_leading_zeros, u64_to_be_trimmed,
};

#[test]
fn leading_zeros_are_stripped() {
    assert_eq!(strip_leading_zeros(&[0, 0, 1, 0]), vec![1, 0]);
    assert_eq!(strip_leading_zeros(&[0, 0, 0]), Vec::<u8>::new());
    assert_eq!(strip_leading_zeros(&[]), Vec::<u8>::new());
    assert_eq!(strip_leading_zeros(&[7]), vec![7]);
}

#[test]
fn numbers_are_big_endian_without_leading_zeros() {
    assert_eq!(u64_to_be_trimmed(0), Vec::<u8>::new());
    assert_eq!(u64_to_be_trimmed(1), vec![1]);
    assert_eq!(u64_to_be_trimmed(255), vec![255]);
    assert_eq!(u64_to_be_trimmed(256), vec![1, 0]);
    assert_eq!(u64_to_be_trimmed(1024), vec![4, 0]);
    assert_eq!(u64_to_be_trimmed(u64::MAX), vec![255; 8]);
    assert_eq!(u64_to_be_trimmed(0x0102030405060708), vec![1, 2, 3, 4, 5, 6, 7, 8]);
}

#[test]
fn byte_strings_are_encoded() {
    assert_eq!(rlp_encode_bytes(&[]), vec![0x80]);
    assert_eq!(rlp_encode_bytes(&[0x00]), vec![0x00]);
    assert_eq!(rlp_encode_bytes(&[0x7f]), vec![0x7f]);
    assert_eq!(rlp_encode_bytes(&[0x80]), vec![0x81, 0x80]);
    assert_eq!(rlp_encode_bytes(b"dog"), vec![0x83, b'd', b'o', b'g']);
    let fifty_five = vec![9u8; 55];
    let mut expected = vec![0xb7];
    expected.extend_from_slice(&fifty_five);
    assert_eq!(rlp_encode_bytes(&fifty_five), expected);
}

#[test]
fn long_byte_strings_carry_their_length() {
    let text = b"Lorem ipsum dolor sit amet, consectetur adipisicing elit";
    assert_eq!(text.len(), 56);
    let mut expected = vec![0xb8, 0x38];
    expected.extend_from_slice(text);
    assert_eq!(rlp_encode_bytes(text), expected);
    let big = vec![1u8; 1024];
    let encoded = rlp_encode_bytes(&big);
    assert_eq!(&encoded[..3], &[0xb9, 0x04, 0x00]);
    assert_eq!(encoded.len(), 1027);
}

#[test]
fn numbers_are_encoded() {
    assert_eq!(rlp_encode_u64(0), vec![0x80]);
    assert_eq!(rlp_encode_u64(15), vec![0x0f]);
    assert_eq!(rlp_encode_u64(127), vec![0x7f]);
    assert_eq!(rlp_encode_u64(128), vec![0x81, 0x80]);
    assert_eq!(rlp_encode_u64(1024), vec![0x82, 0x04, 0x00]);
    assert_eq!(
        rlp_encode_u64(u64::MAX),
        vec![0x88, 255, 255, 255, 255, 255, 255, 255, 255]
    );
}

#[test]
fn lists_are_encoded() {
    assert_eq!(rlp_encode_list(&[]), vec![0xc0]);
    let items = vec![rlp_encode_bytes(b"cat"), rlp_encode_bytes(b"dog")];
    assert_eq!(
        rlp_encode_list(&items),
        vec![0xc8, 0x83, b'c', b'a', b't', 0x83, b'd', b'o', b'g']
    );
    let long = vec![rlp_encode_bytes(&[5u8; 60])];
    let encoded = rlp_encode_list(&long);
    assert_eq!(&encoded[..4], &[0xf8, 62, 0xb8, 60]);
    assert_eq!(encoded.len(), 64);
}
