use webcrypto_shared::{KeyType, RawKeyData};

#[test]
fn public_key_of_65_bytes_keeps_class_and_bytes() {
    let mut buffer = vec![0u8; 65];
    buffer[0] = 0x04;
    for (i, byte) in buffer.iter_mut().enumerate().skip(1) {
        *byte = (i * 7 % 251) as u8;
    }
    let key = RawKeyData::new(KeyType::Public, buffer.clone());
    assert_eq!(key.key_type(), KeyType::Public);
    assert_eq!(key.data(), buffer.as_slice());
    assert_eq!(key.data().len(), 65);
    assert_eq!(key, RawKeyData::Public(buffer.clone()));
    assert_eq!(key.into_data(), buffer);
}

#[test]
fn each_class_reads_back() {
    let bytes = vec![1u8, 2, 3];
    let secret = RawKeyData::new(KeyType::Secret, bytes.clone());
    let private = RawKeyData::new(KeyType::Private, bytes.clone());
    let public = RawKeyData::new(KeyType::Public, bytes.clone());
    assert_eq!(secret, RawKeyData::Secret(bytes.clone()));
    assert_eq!(private, RawKeyData::Private(bytes.clone()));
    assert_eq!(public, RawKeyData::Public(bytes.clone()));
    assert_eq!(RawKeyData::Secret(bytes.clone()).key_type(), KeyType::Secret);
    assert_eq!(RawKeyData::Private(bytes.clone()).key_type(), KeyType::Private);
    assert_eq!(RawKeyData::Public(bytes.clone()).key_type(), KeyType::Public);
}

#[test]
fn class_is_declared_not_inferred() {
    let looks_public = vec![0x04u8; 65];
    let key = RawKeyData::new(KeyType::Secret, looks_public.clone());
    assert_eq!(key.key_type(), KeyType::Secret);
    assert_eq!(key.data(), looks_public.as_slice());
}

#[test]
fn empty_buffer_is_accepted() {
    let key = RawKeyData::new(KeyType::Private, Vec::new());
    assert_eq!(key.key_type(), KeyType::Private);
    assert!(key.data().is_empty());
    assert_eq!(key.into_data(), Vec::<u8>::new());
}

#[test]
fn same_bytes_under_different_tags_differ() {
    let bytes = vec![9u8; 16];
    assert_ne!(RawKeyData::Secret(bytes.clone()), RawKeyData::Private(bytes.clone()));
    assert_ne!(RawKeyData::Private(bytes.clone()), RawKeyData::Public(bytes.clone()));
    assert_ne!(RawKeyData::Secret(bytes.clone()), RawKeyData::Public(bytes));
}

#[test]
fn all_byte_values_survive() {
    let bytes: Vec<u8> = (0..=255u8).collect();
    let key = RawKeyData::new(KeyType::Secret, bytes.clone());
    assert_eq!(key.data(), bytes.as_slice());
    let copy = key.clone();
    assert_eq!(copy, key);
    assert_eq!(copy.into_data(), bytes);
}
