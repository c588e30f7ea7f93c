use composite_contract::selector::{read_selector, selector_from_digest, selector_of_signature};
use composite_contract::{DispatchEntry, DispatchTable, Error, Interface, MethodSig, ParamType};

#[test]
fn table_routes_each_selector_to_its_handler() {
    let entries = vec![
        DispatchEntry { selector: 0x8b7ac3f5, handler: 'a' },
        DispatchEntry { selector: 0x2c5ff6f9, handler: 'b' },
        DispatchEntry { selector: 0, handler: 'z' },
    ];
    let table = DispatchTable::build(&entries).unwrap();
    assert_eq!(table.lookup(0x8b7ac3f5), Some('a'));
    assert_eq!(table.lookup(0x2c5ff6f9), Some('b'));
    assert_eq!(table.lookup(0), Some('z'));
    assert_eq!(table.lookup(1), None);
    assert_eq!(table.lookup(u32::MAX), None);
}

#[test]
fn empty_table_knows_no_selector() {
    let entries: Vec<DispatchEntry<u8>> = Vec::new();
    let table = DispatchTable::build(&entries).unwrap();
    assert_eq!(table.lookup(0), None);
}

#[test]
fn shared_selector_fails_when_the_table_is_built() {
    let entries = vec![
        DispatchEntry { selector: 7, handler: 1u8 },
        DispatchEntry { selector: 8, handler: 2u8 },
        DispatchEntry { selector: 7, handler: 3u8 },
    ];
    assert!(matches!(DispatchTable::build(&entries), Err(Error::SelectorCollisionError)));
}

#[test]
fn shared_selector_fails_even_with_one_handler() {
    let entries = vec![
        DispatchEntry { selector: 7, handler: 1u8 },
        DispatchEntry { selector: 7, handler: 1u8 },
    ];
    assert!(matches!(DispatchTable::build(&entries), Err(Error::SelectorCollisionError)));
}

#[test]
fn signature_lists_the_input_types() {
    let none = MethodSig::new("retNumA", Vec::new(), ParamType::Uint256);
    assert_eq!(none.signature_bytes(), b"retNumA()".to_vec());
    let one = MethodSig::new("foo", vec![ParamType::Address], ParamType::Bool);
    assert_eq!(one.signature_bytes(), b"foo(address)".to_vec());
    let three = MethodSig::new(
        "move",
        vec![ParamType::Address, ParamType::Uint256, ParamType::Bool],
        ParamType::Uint256,
    );
    assert_eq!(three.signature_bytes(), b"move(address,uint256,bool)".to_vec());
}

#[test]
fn selector_is_the_head_of_the_keccak_digest() {
    assert_eq!(MethodSig::new("foo", Vec::new(), ParamType::Uint256).selector(), 0xc2985578);
    assert_eq!(
        MethodSig::new("foo", vec![ParamType::Address], ParamType::Uint256).selector(),
        0xfdf80bda
    );
    assert_eq!(
        MethodSig::new("foo", vec![ParamType::Address, ParamType::Uint256], ParamType::Uint256)
            .selector(),
        0xbd0d639f
    );
    assert_eq!(
        MethodSig::new("transfer", vec![ParamType::Address, ParamType::Uint256], ParamType::Bool)
            .selector(),
        0xa9059cbb
    );
    assert_eq!(MethodSig::new("flag", vec![ParamType::Bool], ParamType::Bool).selector(), 0xa92a4c3b);
}

#[test]
fn selector_does_not_depend_on_the_output_type() {
    let a = MethodSig::new("foo", Vec::new(), ParamType::Uint256);
    let b = MethodSig::new("foo", Vec::new(), ParamType::Bool);
    assert_eq!(a.selector(), b.selector());
}

#[test]
fn selector_of_signature_hashes_the_bytes_given() {
    assert_eq!(selector_of_signature(&b"retNumA()".to_vec()), 0x8b7ac3f5);
    assert_eq!(selector_of_signature(&b"retNumB()".to_vec()), 0x2c5ff6f9);
    assert_eq!(selector_of_signature(&b"foofoo()".to_vec()), 0x07658d01);
    assert_eq!(selector_of_signature(&Vec::new()), 0xc5d24601);
}

#[test]
fn selector_agrees_with_the_sdk_digest() {
    let signature = b"retNumA()".to_vec();
    let digest = stylus_sdk::crypto::keccak(&signature);
    assert_eq!(selector_of_signature(&signature).to_be_bytes(), digest.0[..4]);
    assert_eq!(selector_from_digest(&digest.0), 0x8b7ac3f5);
}

#[test]
fn selector_from_digest_reads_the_first_four_bytes() {
    let mut digest = [0u8; 32];
    digest[0] = 0x12;
    digest[1] = 0x34;
    digest[2] = 0x56;
    digest[3] = 0x78;
    digest[4] = 0x9a;
    assert_eq!(selector_from_digest(&digest), 0x12345678);
    assert_eq!(selector_from_digest(&[0xff; 32]), u32::MAX);
    assert_eq!(selector_from_digest(&[0; 32]), 0);
}

#[test]
fn read_selector_needs_four_bytes() {
    assert_eq!(read_selector(&[]), None);
    assert_eq!(read_selector(&[1, 2, 3]), None);
    assert_eq!(read_selector(&[1, 2, 3, 4]), Some(0x01020304));
    assert_eq!(read_selector(&[0xff, 0, 0, 1, 9, 9]), Some(0xff000001));
}

#[test]
fn interface_keeps_its_name_and_methods() {
    let interface = Interface::new(
        "IContractA",
        vec![MethodSig::new("retNumA", Vec::new(), ParamType::Uint256)],
    );
    assert_eq!(interface.name, "IContractA");
    assert_eq!(interface.methods.len(), 1);
    assert_eq!(interface.methods[0].name, "retNumA");
    assert!(interface.methods[0].inputs.is_empty());
    assert_eq!(interface.methods[0].output, ParamType::Uint256);
}

#[test]
fn two_interfaces_sharing_a_selector_fail_when_the_table_is_built() {
    let first = Interface::new(
        "IFirst",
        vec![MethodSig::new("number", Vec::new(), ParamType::Uint256)],
    );
    let second = Interface::new(
        "ISecond",
        vec![
            MethodSig::new("other", Vec::new(), ParamType::Uint256),
            MethodSig::new("number", Vec::new(), ParamType::Bool),
        ],
    );
    let mut entries = Vec::new();
    for (interface, methods) in [&first, &second].iter().enumerate() {
        for (index, method) in methods.methods.iter().enumerate() {
            entries.push(DispatchEntry { selector: method.selector(), handler: (interface, index) });
        }
    }
    assert_eq!(entries.len(), 3);
    assert_eq!(entries[0].selector, entries[2].selector);
    assert!(matches!(DispatchTable::build(&entries), Err(Error::SelectorCollisionError)));
    entries.pop();
    let table = DispatchTable::build(&entries).unwrap();
    assert_eq!(table.lookup(entries[0].selector), Some((0, 0)));
    assert_eq!(table.lookup(entries[1].selector), Some((1, 0)));
}
