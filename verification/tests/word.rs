use composite_contract::foo::Foo;
use composite_contract::Word;
use stylus_sdk::alloy_primitives::U256;

#[test]
fn zero_and_from_u64_fill_the_low_limb() {
    assert_eq!(Word::zero(), Word { limb0: 0, limb1: 0, limb2: 0, limb3: 0 });
    assert_eq!(Word::from_u64(5), Word { limb0: 5, limb1: 0, limb2: 0, limb3: 0 });
    assert_eq!(Word::from_u64(u64::MAX).limb0, u64::MAX);
}

#[test]
fn encoding_is_32_bytes_big_endian() {
    let mut five = vec![0u8; 32];
    five[31] = 5;
    assert_eq!(Word::from_u64(5).to_abi(), five);
    assert_eq!(Word::zero().to_abi(), vec![0u8; 32]);
    let mut big = vec![0u8; 32];
    big[30] = 0x01;
    big[31] = 0x02;
    assert_eq!(Word::from_u64(0x0102).to_abi(), big);
}

#[test]
fn encoding_puts_the_high_limb_first() {
    let word = Word {
        limb0: 0x1819_1a1b_1c1d_1e1f,
        limb1: 0x1011_1213_1415_1617,
        limb2: 0x0809_0a0b_0c0d_0e0f,
        limb3: 0x0001_0203_0405_0607,
    };
    let expected: Vec<u8> = (0u8..32).collect();
    assert_eq!(word.to_abi(), expected);
}

#[test]
fn encoding_of_the_largest_word_is_all_ones() {
    let word = Word { limb0: u64::MAX, limb1: u64::MAX, limb2: u64::MAX, limb3: u64::MAX };
    assert_eq!(word.to_abi(), vec![0xffu8; 32]);
}

#[test]
fn encoding_agrees_with_the_sdk_integer() {
    let word = Word { limb0: 7, limb1: 0, limb2: 1, limb3: 0x8000_0000_0000_0000 };
    let one = U256::from(1u64);
    let number: U256 = (one << 255usize) + (one << 128usize) + U256::from(7u64);
    assert_eq!(word.to_abi(), number.to_be_bytes::<32>().to_vec());
}

#[test]
fn call_result_is_the_encoded_word() {
    let word = Word { limb0: 0xaabb, limb1: 0, limb2: 0, limb3: 0x0100_0000_0000_0000 };
    let mut foo = Foo::deploy(word, Word::zero()).unwrap();
    let out = foo.call(0x8b7ac3f5, &[]).unwrap();
    assert_eq!(out.len(), 32);
    assert_eq!(out[0], 0x01);
    assert_eq!(out[30], 0xaa);
    assert_eq!(out[31], 0xbb);
    assert_eq!(out, word.to_abi());
}
