//! A hash can be used wherever a slice of bytes is read.

fn sum(bytes: &[u8]) -> u32 {
    bytes.iter().map(|b| u32::from(*b)).sum()
}

#[test]
fn len_and_is_empty_are_those_of_the_bytes() {
    let bytes = [1u8, 2, 3, 4, 5];
    let hash = gitoid::hash::Hash::new(&bytes);
    assert_eq!(hash.len(), 5);
    assert_eq!(hash.len(), hash.as_bytes().len());
    assert!(!hash.is_empty());

    let none: [u8; 0] = [];
    let hash = gitoid::hash::Hash::new(&none);
    assert_eq!(hash.len(), 0);
    assert!(hash.is_empty());
}

#[test]
fn indexing_reads_the_byte_at_that_place() {
    let bytes = [0x0Au8, 0x1B, 0x2C];
    let hash = gitoid::hash::Hash::new(&bytes);
    for i in 0..bytes.len() {
        assert_eq!(hash[i], bytes[i]);
        assert_eq!(hash[i], hash.as_bytes()[i]);
    }
    assert_eq!(&hash[1..], &[0x1Bu8, 0x2C][..]);
    assert_eq!(hash.first(), Some(&0x0A));
    assert_eq!(hash.last(), Some(&0x2C));
    assert_eq!(hash.get(3), None);
}

#[test]
fn iteration_walks_the_bytes_in_order() {
    let bytes = [9u8, 8, 7, 6];
    let hash = gitoid::hash::Hash::new(&bytes);
    let seen: Vec<u8> = hash.iter().copied().collect();
    assert_eq!(seen, vec![9, 8, 7, 6]);
}

#[test]
fn dereferenced_hash_equals_its_bytes() {
    let bytes = [0xDEu8, 0xAD, 0xBE, 0xEF];
    let hash = gitoid::hash::Hash::new(&bytes);
    assert_eq!(*hash, bytes[..]);
    assert_eq!(&*hash, hash.as_bytes());
    assert_eq!((*hash).as_ptr(), bytes.as_ptr());

    let same = [0xDEu8, 0xAD, 0xBE, 0xEF];
    let other = gitoid::hash::Hash::new(&same);
    assert_eq!(*hash, *other);

    let different = [0xDEu8, 0xAD, 0xBE];
    let shorter = gitoid::hash::Hash::new(&different);
    assert_ne!(*hash, *shorter);
}

#[test]
fn hash_is_accepted_where_a_slice_is_expected() {
    let bytes = [1u8, 2, 3];
    let hash = gitoid::hash::Hash::new(&bytes);
    assert_eq!(sum(&hash), 6);
}
