use api_server_rust::hash_generator::{
    binary_to_chunks_and_numbers, character_mapper, number_to_binary_mod6,
};

#[test]
fn binary_of_zero_is_one_group_of_zeros() {
    assert_eq!(number_to_binary_mod6(0), "000000");
}

#[test]
fn binary_is_padded_to_six_digits() {
    assert_eq!(number_to_binary_mod6(5), "000101");
    assert_eq!(number_to_binary_mod6(63), "111111");
}

#[test]
fn binary_grows_by_groups_of_six() {
    assert_eq!(number_to_binary_mod6(64), "000001000000");
    assert_eq!(number_to_binary_mod6(4095), "111111111111");
}

#[test]
fn binary_of_largest_u32_has_thirty_six_digits() {
    let expected = format!("0000{}", "1".repeat(32));
    assert_eq!(number_to_binary_mod6(u32::MAX), expected);
}

#[test]
fn chunks_of_small_numbers() {
    assert_eq!(binary_to_chunks_and_numbers(0), vec![0]);
    assert_eq!(binary_to_chunks_and_numbers(63), vec![63]);
    assert_eq!(binary_to_chunks_and_numbers(64), vec![1, 0]);
    assert_eq!(binary_to_chunks_and_numbers(4095), vec![63, 63]);
}

#[test]
fn chunks_are_base_64_digits() {
    assert_eq!(binary_to_chunks_and_numbers(1_000_000), vec![3, 52, 9, 0]);
    assert_eq!(binary_to_chunks_and_numbers(u32::MAX), vec![3, 63, 63, 63, 63, 63]);
}

#[test]
fn hash_alphabet_boundaries() {
    assert_eq!(character_mapper(0), "a");
    assert_eq!(character_mapper(1), "b");
    assert_eq!(character_mapper(25), "z");
    assert_eq!(character_mapper(26), "A");
    assert_eq!(character_mapper(51), "Z");
    assert_eq!(character_mapper(52), "0");
    assert_eq!(character_mapper(61), "9");
    assert_eq!(character_mapper(62), "*");
    assert_eq!(character_mapper(63), "-");
}

#[test]
fn hash_of_two_digit_tickets() {
    assert_eq!(character_mapper(64), "ba");
    assert_eq!(character_mapper(1_000_000), "d0ja");
}

#[test]
fn negative_tickets_are_read_as_unsigned() {
    assert_eq!(character_mapper(-1), "d-----");
    assert_eq!(character_mapper(i32::MIN), "caaaaa");
}

#[test]
fn distinct_tickets_get_distinct_hashes() {
    let hashes: Vec<String> = (0..5000).map(character_mapper).collect();
    let mut sorted = hashes.clone();
    sorted.sort();
    sorted.dedup();
    assert_eq!(sorted.len(), hashes.len());
}
