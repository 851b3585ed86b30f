use mp_starknet::commitment::{chain_id_felt, hash_on_elements};
use mp_starknet::felt::Felt252Wrapper;

fn felt(x: u64) -> Felt252Wrapper {
    Felt252Wrapper::from_u64(x)
}

#[test]
fn chain_id_of_one_byte_is_that_byte() {
    assert_eq!(chain_id_felt("A"), felt(0x41));
}

#[test]
fn chain_id_of_main_net_reads_big_endian() {
    assert_eq!(chain_id_felt("SN_MAIN"), felt(0x534e_5f4d_4149_4e));
}

#[test]
fn chain_id_of_empty_string_is_zero() {
    assert_eq!(chain_id_felt(""), felt(0));
}

#[test]
fn chain_id_of_thirty_one_bytes_spans_both_halves() {
    // Thirty 'A's and one closing 'B': the high half holds the first 15
    // bytes, the low half the remaining 16.
    let id = "AAAAAAAAAAAAAAAAAAAAAAAAAAAAAAB";
    assert_eq!(id.len(), 31);
    let f = chain_id_felt(id);
    assert_eq!(f.hi, 0x414141414141414141414141414141u128);
    assert_eq!(f.lo, 0x4141_4141_4141_4141_4141_4141_4141_4142u128);
}

#[test]
fn element_hash_of_empty_input_matches_known_value() {
    // The Pedersen chain over no elements, closed with the count 0.
    let h = hash_on_elements(&vec![]);
    assert_eq!(h.hi, 0x049e_e3eb_a8c1_6007_00ee_1b87_eb59_9f16u128);
    assert_eq!(h.lo, 0x716b_0b10_2294_7733_551f_de40_50ca_6804u128);
}

#[test]
fn element_hash_of_four_elements_matches_known_value() {
    let h = hash_on_elements(&vec![felt(0xaa), felt(0xbb), felt(0xcc), felt(0xdd)]);
    assert_eq!(h.hi, 0x025c_de77_210b_1c22_3b2c_6e69_db6e_9021u128);
    assert_eq!(h.lo, 0xaa15_9917_7ab1_7747_4d53_26cd_2a62_cb69u128);
}

#[test]
fn element_hash_is_order_and_length_sensitive() {
    let a = hash_on_elements(&vec![felt(1), felt(2)]);
    let b = hash_on_elements(&vec![felt(2), felt(1)]);
    let c = hash_on_elements(&vec![felt(1), felt(2), felt(0)]);
    let d = hash_on_elements(&vec![felt(1), felt(2)]);
    assert_eq!(a, d);
    assert_ne!(a, b);
    assert_ne!(a, c);
    assert_ne!(b, c);
}
