use array_type::encoding::{ADDRESS, ARRAY, BOOLEAN, FIELD, GROUP, INTEGER, SCALAR, SIGNATURE, UNIT};
use array_type::{ArrayType, IntegerType, PositiveNumber, Type};

fn count(n: usize) -> PositiveNumber {
    PositiveNumber::new(n).unwrap()
}

fn integers() -> Vec<IntegerType> {
    vec![
        IntegerType::U8,
        IntegerType::U16,
        IntegerType::U32,
        IntegerType::U64,
        IntegerType::U128,
        IntegerType::I8,
        IntegerType::I16,
        IntegerType::I32,
        IntegerType::I64,
        IntegerType::I128,
    ]
}

fn step(state: &mut u64) -> u64 {
    *state = state.wrapping_mul(6_364_136_223_846_793_005).wrapping_add(1_442_695_040_888_963_407);
    *state >> 33
}

fn random_scalar(state: &mut u64) -> Type {
    match step(state) % 8 {
        0 => Type::Address,
        1 => Type::Boolean,
        2 => Type::Field,
        3 => Type::Group,
        4 => Type::Integer(integers()[(step(state) % 10) as usize]),
        5 => Type::Scalar,
        6 => Type::Signature,
        _ => Type::Unit,
    }
}

fn random_array(state: &mut u64) -> ArrayType {
    let depth = 1 + step(state) % 5;
    let mut array = ArrayType::new(random_scalar(state), count(1 + (step(state) % 1000) as usize));
    for _ in 1..depth {
        array = ArrayType::new(Type::Array(array), count(1 + (step(state) % 1000) as usize));
    }
    array
}

#[test]
fn flat_array_is_length_then_element() {
    let array = ArrayType::new(Type::Boolean, count(5));
    assert_eq!(array.encode(), vec![5, BOOLEAN]);
    assert_eq!(array.encode(), vec![5, 1]);
}

#[test]
fn integer_is_two_words() {
    let array = ArrayType::new(Type::Integer(IntegerType::I16), count(7));
    assert_eq!(array.encode(), vec![7, INTEGER, 6]);
    assert_eq!(array.encode(), vec![7, 4, 6]);
}

#[test]
fn nested_array_is_written_outside_in() {
    let row = ArrayType::new(Type::Integer(IntegerType::U8), count(2));
    let plane = ArrayType::new(Type::Array(row), count(3));
    let cube = ArrayType::new(Type::Array(plane), count(4));
    assert_eq!(cube.encode(), vec![4, ARRAY, 3, ARRAY, 2, INTEGER, 0]);
    assert_eq!(cube.encode(), vec![4, 8, 3, 8, 2, 4, 0]);
}

#[test]
fn every_scalar_has_its_word() {
    let pairs = [
        (Type::Address, ADDRESS, 0),
        (Type::Boolean, BOOLEAN, 1),
        (Type::Field, FIELD, 2),
        (Type::Group, GROUP, 3),
        (Type::Scalar, SCALAR, 5),
        (Type::Signature, SIGNATURE, 6),
        (Type::Unit, UNIT, 7),
    ];
    for (element, tag, word) in pairs {
        assert_eq!(tag, word);
        assert_eq!(element.to_tag(), word);
        assert_eq!(ArrayType::new(element, count(1)).encode(), vec![1, word]);
    }
    assert_eq!(Type::Integer(IntegerType::U8).to_tag(), 4);
    assert_eq!(Type::Array(ArrayType::new(Type::Unit, count(1))).to_tag(), 8);
}

#[test]
fn integer_codes_go_both_ways() {
    for (code, integer) in integers().iter().enumerate() {
        assert_eq!(integer.to_code(), code as u64);
        assert_eq!(IntegerType::from_code(code as u64), Some(*integer));
    }
    assert_eq!(IntegerType::from_code(10), None);
    assert_eq!(IntegerType::from_code(u64::MAX), None);
}

#[test]
fn decode_reads_what_encode_wrote() {
    let array = ArrayType::new(Type::Boolean, count(5));
    assert_eq!(ArrayType::decode(&array.encode()), Some(array));
    let row = ArrayType::new(Type::Integer(IntegerType::U8), count(2));
    let plane = ArrayType::new(Type::Array(row), count(3));
    assert_eq!(ArrayType::decode(&[3, 8, 2, 4, 0]), Some(plane));
}

#[test]
fn round_trip_of_every_scalar_element() {
    let mut elements = vec![
        Type::Address,
        Type::Boolean,
        Type::Field,
        Type::Group,
        Type::Scalar,
        Type::Signature,
        Type::Unit,
    ];
    for integer in integers() {
        elements.push(Type::Integer(integer));
    }
    for element in elements {
        for n in [1usize, 2, 1000, usize::MAX] {
            let array = ArrayType::new(element.clone(), count(n));
            assert_eq!(ArrayType::decode(&array.encode()), Some(array));
        }
    }
}

#[test]
fn round_trip_of_random_arrays() {
    let mut state = 0x5eed_u64;
    for _ in 0..200 {
        let array = random_array(&mut state);
        let words = array.encode();
        let back = ArrayType::decode(&words);
        assert_eq!(back, Some(array.clone()));
        assert_eq!(back.unwrap().encode(), words);
    }
}

#[test]
fn round_trip_of_a_deep_array() {
    let mut array = ArrayType::new(Type::Signature, count(1));
    for n in 2usize..200 {
        array = ArrayType::new(Type::Array(array), count(n));
    }
    let words = array.encode();
    assert_eq!(words.len(), 2 * 199);
    assert_eq!(ArrayType::decode(&words), Some(array));
}

#[test]
fn decode_refuses_nothing_at_all() {
    assert_eq!(ArrayType::decode(&[]), None);
}

#[test]
fn decode_refuses_a_length_of_zero() {
    assert_eq!(ArrayType::decode(&[0, 1]), None);
    assert_eq!(ArrayType::decode(&[3, 8, 0, 1]), None);
}

#[test]
fn decode_refuses_an_early_end() {
    assert_eq!(ArrayType::decode(&[5]), None);
    assert_eq!(ArrayType::decode(&[5, 4]), None);
    assert_eq!(ArrayType::decode(&[5, 8]), None);
    assert_eq!(ArrayType::decode(&[5, 8, 2]), None);
    assert_eq!(ArrayType::decode(&[4, 8, 3, 8, 2, 4]), None);
}

#[test]
fn decode_refuses_words_after_the_end() {
    assert_eq!(ArrayType::decode(&[5, 1, 0]), None);
    assert_eq!(ArrayType::decode(&[5, 4, 0, 0]), None);
    assert_eq!(ArrayType::decode(&[3, 8, 2, 4, 0, 7]), None);
}

#[test]
fn decode_refuses_unknown_words() {
    assert_eq!(ArrayType::decode(&[5, 9]), None);
    assert_eq!(ArrayType::decode(&[5, u64::MAX]), None);
    assert_eq!(ArrayType::decode(&[5, 4, 10]), None);
    assert_eq!(ArrayType::decode(&[5, 8, 2, 9]), None);
}

#[test]
fn decode_takes_the_largest_length() {
    let array = ArrayType::new(Type::Unit, count(usize::MAX));
    assert_eq!(ArrayType::decode(&[usize::MAX as u64, 7]), Some(array));
}

#[test]
fn decode_accepts_only_what_encode_writes() {
    let mut state = 0xfeed_u64;
    for _ in 0..2000 {
        let len = (step(&mut state) % 7) as usize;
        let mut words = Vec::new();
        for _ in 0..len {
            words.push(step(&mut state) % 11);
        }
        if let Some(array) = ArrayType::decode(&words) {
            assert_eq!(array.encode(), words);
            assert!(array.length() >= 1);
        }
    }
}
