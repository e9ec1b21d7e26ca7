use bloom_filter::{derive_indices, BloomCheckResult, BloomFilter, CapacityError, DigestCursor};

fn digest_ending_with(tail: &[u8]) -> Vec<u8> {
    let mut d = vec![0u8; 64 - tail.len()];
    d.extend_from_slice(tail);
    d
}

#[test]
fn rejects_invalid_size_and_hasher_count() {
    if let Ok(_) = BloomFilter::build(200, 7) {
        panic!("Should have rejected invalid input");
    }
}

#[test]
fn accepts_valid_size_and_hasher_count() {
    if let Err(_) = BloomFilter::build(4, 6) {
        panic!("Should have accepted valid input");
    }
}

#[test]
fn no_false_negatives() {
    let mut bf = BloomFilter::build(4, 2).expect("should have built a bloom filte");

    bf.add(String::from("foo").as_bytes());
    bf.add(String::from("bar").as_bytes());
    bf.add(String::from("baz").as_bytes());
    bf.add(String::from("Green eggs and ham").as_bytes());

    println!("{:?}", bf.to_bit_string());

    assert_eq!(bf.is_present(String::from("foo").as_bytes()), BloomCheckResult::Maybe);
    assert_eq!(bf.is_present(String::from("bar").as_bytes()), BloomCheckResult::Maybe);
    assert_eq!(bf.is_present(String::from("baz").as_bytes()), BloomCheckResult::Maybe);
    assert_eq!(
        bf.is_present(String::from("Green eggs and ham").as_bytes()),
        BloomCheckResult::Maybe
    );

    // These three were never added; that they come out absent is what this
    // digest gives for them, not something every filter promises.
    assert_eq!(bf.is_present(String::from("not present").as_bytes()), BloomCheckResult::No);
    assert_eq!(bf.is_present(String::from("nor I").as_bytes()), BloomCheckResult::No);
    assert_eq!(
        bf.is_present(String::from("Green eggs and jam").as_bytes()),
        BloomCheckResult::No
    );
}

#[test]
fn capacity_error_on_six_hundred_bits() {
    let r = BloomFilter::build(100, 6);
    assert_eq!(r.err(), Some(CapacityError { index_bits: 100, hasher_count: 6 }));
}

#[test]
fn capacity_boundary() {
    assert!(BloomFilter::build(8, 64).is_ok());
    assert!(BloomFilter::build(1, 513).is_err());
    assert!(BloomFilter::build(9, 57).is_err());
    assert!(BloomFilter::build(0, 1000).is_ok());
}

#[test]
fn new_filter_is_all_clear() {
    let bf = BloomFilter::build(3, 1).unwrap();
    assert_eq!(bf.to_bit_string(), "0 0 0 0 0 0 0 0 ");
    assert_eq!(bf.is_present(b"anything"), BloomCheckResult::No);
}

#[test]
fn scenario_sets_expected_bits() {
    let mut bf = BloomFilter::build(4, 2).unwrap();
    for k in ["foo", "bar", "baz", "Green eggs and ham"] {
        bf.add(k.as_bytes());
    }
    assert_eq!(bf.to_bit_string(), "0 1 0 0 1 0 0 0 1 0 0 1 0 0 1 1 ");
}

#[test]
fn single_key_sets_its_slots() {
    // SHA-512("foo") gives slot indices 14 and 11 with four bits per slot.
    let mut bf = BloomFilter::build(4, 2).unwrap();
    bf.add(b"foo");
    assert_eq!(bf.to_bit_string(), "0 0 0 0 0 0 0 0 0 0 0 1 0 0 1 0 ");
}

#[test]
fn adding_twice_equals_adding_once() {
    let mut once = BloomFilter::build(4, 3).unwrap();
    once.add(b"key");
    let mut twice = BloomFilter::build(4, 3).unwrap();
    twice.add(b"key");
    twice.add(b"key");
    assert_eq!(once.to_bit_string(), twice.to_bit_string());
}

#[test]
fn repeated_queries_agree() {
    let mut bf = BloomFilter::build(4, 2).unwrap();
    bf.add(b"foo");
    for k in [&b"foo"[..], b"nor I", b"x", b""] {
        assert_eq!(bf.is_present(k), bf.is_present(k));
    }
}

#[test]
fn added_keys_stay_present_after_more_adds() {
    let mut bf = BloomFilter::build(5, 4).unwrap();
    bf.add(b"first");
    for i in 0..20u8 {
        bf.add(&[i, i, i]);
        assert_eq!(bf.is_present(b"first"), BloomCheckResult::Maybe);
    }
}

#[test]
fn empty_key() {
    let mut bf = BloomFilter::build(4, 2).unwrap();
    assert_eq!(bf.is_present(b""), bf.is_present(b""));
    bf.add(b"");
    assert_eq!(bf.is_present(b""), BloomCheckResult::Maybe);
    // SHA-512 of the empty string gives slot indices 7 and 12.
    assert_eq!(bf.to_bit_string(), "0 0 0 0 0 0 0 1 0 0 0 0 1 0 0 0 ");
}

#[test]
fn zero_index_bits_uses_one_bit() {
    let mut bf = BloomFilter::build(0, 3).unwrap();
    assert_eq!(bf.to_bit_string(), "0 ");
    bf.add(b"a");
    assert_eq!(bf.to_bit_string(), "1 ");
    assert_eq!(bf.is_present(b"b"), BloomCheckResult::Maybe);
}

#[test]
fn zero_hashers_always_maybe() {
    let bf = BloomFilter::build(4, 0).unwrap();
    assert_eq!(bf.is_present(b"never added"), BloomCheckResult::Maybe);
}

#[test]
fn indices_read_last_byte_low_bit_first() {
    // Last byte 0b0000_0101: positions 0 and 2 are set.
    let d = digest_ending_with(&[0b0000_0101]);
    assert_eq!(derive_indices(d, 3, 2), vec![5, 0]);
}

#[test]
fn indices_cross_into_earlier_bytes() {
    // Last byte 0b1000_0000 sets position 7; the byte before it, 0b0000_0001,
    // sets position 8.
    let d = digest_ending_with(&[0b0000_0001, 0b1000_0000]);
    assert_eq!(derive_indices(d.clone(), 4, 3), vec![0, 0b0001, 0b1000]);
    assert_eq!(derive_indices(d, 6, 2), vec![0b000000, 0b011000]);
}

#[test]
fn indices_use_the_whole_digest() {
    // The first byte's high bit is position 511, the very last bit read.
    let mut d = vec![0u8; 64];
    d[0] = 0b1000_0000;
    let r = derive_indices(d, 8, 64);
    assert_eq!(r.len(), 64);
    assert_eq!(r[63], 1);
    assert!(r[..63].iter().all(|&v| v == 0));
}

#[test]
fn cursor_reads_consecutive_runs() {
    let mut c = DigestCursor::new(vec![0b1111_0000, 0b1010_1010]);
    // Positions 0..8 are the bits of 0b1010_1010 from the low end: 0,1,0,1,...
    assert_eq!(c.read_bits(4), 0b0101);
    assert_eq!(c.read_bits(4), 0b0101);
    // Positions 8..16 are the bits of 0b1111_0000 from the low end.
    assert_eq!(c.read_bits(8), 0b0000_1111);
}
