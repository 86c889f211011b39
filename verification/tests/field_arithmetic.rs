use aura_intent_lineage_v1::{
    FieldElement521V1,
    FieldElementErrorV1,
    FIELD_ELEMENT_521_BYTE_LEN_V1,
    FIELD_MODULUS_521_V1,
};


#[test]
fn canonical_zero_is_valid() {
    let bytes = [0u8; FIELD_ELEMENT_521_BYTE_LEN_V1];
    let element = FieldElement521V1::from_bytes(bytes).unwrap();

    assert_eq!(element.to_bytes(), bytes);
}

#[test]
fn canonical_one_is_valid() {
    let bytes = small_value_bytes(1);
    let element = FieldElement521V1::from_bytes(bytes).unwrap();

    assert_eq!(element.to_bytes(), bytes);
}

#[test]
fn canonical_max_minus_one_is_valid() {
    let mut bytes = FIELD_MODULUS_521_V1;
    bytes[FIELD_ELEMENT_521_BYTE_LEN_V1 - 1] = 0xfe;

    let element = FieldElement521V1::from_bytes(bytes).unwrap();
    assert_eq!(element.to_bytes(), bytes);
}

#[test]
fn highest_legal_top_bit_value_is_valid() {
    let bytes = top_bit_value_bytes(0);
    let element = FieldElement521V1::from_bytes(bytes).unwrap();

    assert_eq!(element.to_bytes(), bytes);
}

#[test]
fn modulus_rejects() {
    let error = FieldElement521V1::from_bytes(FIELD_MODULUS_521_V1).unwrap_err();

    assert_eq!(error, FieldElementErrorV1::ValueOutOfRange);
}

#[test]
fn top_bits_set_rejects() {
    let mut bytes = [0u8; FIELD_ELEMENT_521_BYTE_LEN_V1];
    bytes[0] = 0x80;

    let error = FieldElement521V1::from_bytes(bytes).unwrap_err();
    assert_eq!(error, FieldElementErrorV1::InvalidTopBits);
}

#[test]
fn top_bit_edge_condition_rejects_first_forbidden_bit() {
    let mut bytes = [0u8; FIELD_ELEMENT_521_BYTE_LEN_V1];
    bytes[0] = 0x02;

    let error = FieldElement521V1::from_bytes(bytes).unwrap_err();
    assert_eq!(error, FieldElementErrorV1::InvalidTopBits);
}

#[test]
fn roundtrip_identity() {
    let bytes = hex66("01000000000000000000000000000000000000000000000000000000000000000000000000000000000000000000000000000000000000000000000000000000000a");
    let element = FieldElement521V1::from_bytes(bytes).unwrap();

    assert_eq!(element.to_bytes(), bytes);
}

#[test]
fn reduction_from_empty_bytes_is_zero() {
    assert_eq!(
        FieldElement521V1::reduce_bytes_mod(&[]).to_bytes(),
        zero().to_bytes()
    );
}

#[test]
fn reduction_from_single_byte_matches_small_value() {
    assert_eq!(
        FieldElement521V1::reduce_bytes_mod(&[0xab]).to_bytes(),
        small_value_bytes(0xab)
    );
}

#[test]
fn reduction_of_modulus_followed_by_one_wraps_to_one() {
    let mut bytes = Vec::from(FIELD_MODULUS_521_V1);
    bytes.push(1);

    assert_eq!(
        FieldElement521V1::reduce_bytes_mod(&bytes).to_bytes(),
        one().to_bytes()
    );
}

#[test]
fn important_edge_values_roundtrip_canonically() {
    let edge_values = [
        [0u8; FIELD_ELEMENT_521_BYTE_LEN_V1],
        small_value_bytes(1),
        modulus_minus_small_bytes(1),
        top_bit_value_bytes(0),
        top_bit_value_bytes(10),
    ];

    for bytes in edge_values {
        let element = FieldElement521V1::from_bytes(bytes).unwrap();
        assert_eq!(element.to_bytes(), bytes);
    }
}

#[test]
fn modified_byte_changes_value() {
    let first_bytes = hex66("000000000000000000000000000000000000000000000000000000000000000000000000000000000000000000000000000000000000000000000000000000000001");
    let second_bytes = hex66("000000000000000000000000000000000000000000000000000000000000000000000000000000000000000000000000000000000000000000000000000000000002");

    let first = FieldElement521V1::from_bytes(first_bytes).unwrap();
    let second = FieldElement521V1::from_bytes(second_bytes).unwrap();

    assert_ne!(first.to_bytes(), second.to_bytes());
}

#[test]
fn addition_zero_plus_zero_is_zero() {
    let sum = zero().add_mod(&zero());

    assert_eq!(sum.to_bytes(), zero().to_bytes());
}

#[test]
fn addition_zero_plus_one_is_one() {
    let sum = zero().add_mod(&one());

    assert_eq!(sum.to_bytes(), one().to_bytes());
}

#[test]
fn addition_max_minus_one_plus_one_wraps_to_zero() {
    let sum = max_minus_one().add_mod(&one());

    assert_eq!(sum.to_bytes(), zero().to_bytes());
}

#[test]
fn subtraction_zero_minus_one_wraps_to_max_minus_one() {
    let difference = zero().sub_mod(&one());

    assert_eq!(difference.to_bytes(), max_minus_one().to_bytes());
}

#[test]
fn subtraction_one_minus_max_minus_one_yields_two() {
    let difference = one().sub_mod(&max_minus_one());

    assert_eq!(difference.to_bytes(), small_value_bytes(2));
}

#[test]
fn multiplication_zero_is_zero() {
    let product = zero().mul_mod(&top_bit_value(10));

    assert_eq!(product.to_bytes(), zero().to_bytes());
}

#[test]
fn multiplication_one_is_identity() {
    let product = one().mul_mod(&top_bit_value(10));

    assert_eq!(product.to_bytes(), top_bit_value(10).to_bytes());
}

#[test]
fn multiplication_small_known_value_matches_expected_result() {
    let product = small_value(5).mul_mod(&small_value(7));

    assert_eq!(product.to_bytes(), small_value_bytes(35));
}

#[test]
fn multiplication_max_minus_one_times_max_minus_one_is_one() {
    let product = max_minus_one().mul_mod(&max_minus_one());

    assert_eq!(product.to_bytes(), one().to_bytes());
}

#[test]
fn squaring_zero_is_zero() {
    let square = zero().square_mod();

    assert_eq!(square.to_bytes(), zero().to_bytes());
}

#[test]
fn squaring_one_is_one() {
    let square = one().square_mod();

    assert_eq!(square.to_bytes(), one().to_bytes());
}

#[test]
fn squaring_max_minus_one_is_one() {
    let square = max_minus_one().square_mod();

    assert_eq!(square.to_bytes(), one().to_bytes());
}

#[test]
fn squaring_small_known_value_matches_expected_result() {
    let square = small_value(5).square_mod();

    assert_eq!(square.to_bytes(), small_value_bytes(25));
}

#[test]
fn squaring_boundary_adjacent_value_matches_expected_result() {
    let square = max_minus_two().square_mod();

    assert_eq!(square.to_bytes(), small_value_bytes(4));
}

#[test]
fn pinned_vector_is_valid() {
    let bytes = hex66("0100000000000000000000000000000000000000000000000000000000000000000000000000000000000000000000000000000000000000000000000000000000aa");

    let element = FieldElement521V1::from_bytes(bytes).unwrap();
    assert_eq!(element.to_bytes(), bytes);
}

fn zero() -> FieldElement521V1 {
    FieldElement521V1::zero()
}

fn one() -> FieldElement521V1 {
    small_value(1)
}

fn max_minus_one() -> FieldElement521V1 {
    FieldElement521V1::from_bytes(modulus_minus_small_bytes(1)).unwrap()
}

fn max_minus_two() -> FieldElement521V1 {
    FieldElement521V1::from_bytes(modulus_minus_small_bytes(2)).unwrap()
}

fn small_value(value: u8) -> FieldElement521V1 {
    FieldElement521V1::from_bytes(small_value_bytes(value)).unwrap()
}

fn small_value_bytes(value: u8) -> [u8; FIELD_ELEMENT_521_BYTE_LEN_V1] {
    let mut bytes = [0u8; FIELD_ELEMENT_521_BYTE_LEN_V1];
    bytes[FIELD_ELEMENT_521_BYTE_LEN_V1 - 1] = value;
    bytes
}

fn modulus_minus_small_bytes(value: u8) -> [u8; FIELD_ELEMENT_521_BYTE_LEN_V1] {
    assert!(value > 0);

    let mut bytes = FIELD_MODULUS_521_V1;
    bytes[FIELD_ELEMENT_521_BYTE_LEN_V1 - 1] = 0xff - value;
    bytes
}

fn top_bit_value(low_byte: u8) -> FieldElement521V1 {
    FieldElement521V1::from_bytes(top_bit_value_bytes(low_byte)).unwrap()
}

fn top_bit_value_bytes(low_byte: u8) -> [u8; FIELD_ELEMENT_521_BYTE_LEN_V1] {
    let mut bytes = [0u8; FIELD_ELEMENT_521_BYTE_LEN_V1];
    bytes[0] = 0x01;
    bytes[FIELD_ELEMENT_521_BYTE_LEN_V1 - 1] = low_byte;
    bytes
}

fn hex66(input: &str) -> [u8; FIELD_ELEMENT_521_BYTE_LEN_V1] {
    let bytes = input.as_bytes();
    assert_eq!(bytes.len(), FIELD_ELEMENT_521_BYTE_LEN_V1 * 2);

    let mut output = [0u8; FIELD_ELEMENT_521_BYTE_LEN_V1];
    let mut index = 0usize;
    while index < FIELD_ELEMENT_521_BYTE_LEN_V1 {
        let hi = decode_hex_nibble(bytes[index * 2]);
        let lo = decode_hex_nibble(bytes[index * 2 + 1]);
        output[index] = (hi << 4) | lo;
        index += 1;
    }
    output
}

fn decode_hex_nibble(byte: u8) -> u8 {
    match byte {
        b'0'..=b'9' => byte - b'0',
        b'a'..=b'f' => byte - b'a' + 10,
        b'A'..=b'F' => byte - b'A' + 10,
        _ => panic!("invalid hex byte in test vector"),
    }
}
