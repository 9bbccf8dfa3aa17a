use abi_dispatch::abi::{
    abi_type, abi_type_base, canonical_signature, selector_from_digest, selector_literal,
};
use abi_dispatch::ir::Literal;
use abi_dispatch::types::{Array, Base, FixedSize};

fn selector(name: &str, params: Vec<FixedSize>) -> String {
    selector_literal(name.to_string(), &params).literal
}

fn bytes(dimension: usize) -> FixedSize {
    FixedSize::Array(Array { dimension, inner: Base::Byte })
}

#[test]
fn test_selector_literal() {
    assert_eq!(
        selector_literal("bar".to_string(), &vec![FixedSize::Base(Base::U256)]).literal,
        String::from("0x0423a132"),
    )
}

#[test]
fn selector_of_function_without_parameters() {
    assert_eq!(selector("foo", vec![]), "0xc2985578");
}

#[test]
fn selector_of_function_with_one_word() {
    assert_eq!(selector("foo", vec![FixedSize::Base(Base::U256)]), "0x2fbebd38");
}

#[test]
fn selector_of_well_known_signatures() {
    assert_eq!(
        selector("transfer", vec![FixedSize::Base(Base::Address), FixedSize::Base(Base::U256)]),
        "0xa9059cbb"
    );
    assert_eq!(selector("balanceOf", vec![FixedSize::Base(Base::Address)]), "0x70a08231");
    assert_eq!(selector("burn", vec![FixedSize::Base(Base::U256)]), "0x42966c68");
}

#[test]
fn selector_is_the_same_when_computed_twice() {
    let params = vec![FixedSize::Base(Base::Address), bytes(32)];
    let first = selector_literal("store".to_string(), &params);
    let second = selector_literal("store".to_string(), &params);
    assert_eq!(first, second);
    assert_eq!(first.literal, "0x16e16853");
}

#[test]
fn selector_has_two_prefix_characters_and_eight_digits() {
    let text = selector("anything", vec![bytes(7)]);
    assert_eq!(text.len(), 10);
    assert!(text.starts_with("0x"));
    assert!(text[2..].chars().all(|c| c.is_ascii_digit() || ('a'..='f').contains(&c)));
}

#[test]
fn selector_depends_on_name_and_parameters() {
    let a = selector("foo", vec![]);
    let b = selector("foo", vec![FixedSize::Base(Base::U256)]);
    let c = selector("bar", vec![FixedSize::Base(Base::U256)]);
    assert_ne!(a, b);
    assert_ne!(b, c);
}

#[test]
fn selector_of_non_ascii_name_hashes_its_utf8_bytes() {
    // "é" is the two bytes c3 a9, so the signature is the four bytes
    // c3 a9 28 29.
    assert_eq!(selector("\u{e9}", vec![]), "0x4e45cf89");
}

#[test]
fn selector_from_digest_takes_the_first_four_bytes() {
    let mut digest = [0u8; 32];
    digest[0] = 0xde;
    digest[1] = 0xad;
    digest[2] = 0xbe;
    digest[3] = 0xef;
    digest[4] = 0x99;
    digest[31] = 0x11;
    assert_eq!(selector_from_digest(&digest), Literal { literal: "0xdeadbeef".to_string() });
}

#[test]
fn selector_from_digest_keeps_leading_zeros() {
    let mut digest = [0xffu8; 32];
    digest[0] = 0x00;
    digest[1] = 0x0a;
    digest[2] = 0x10;
    digest[3] = 0x01;
    assert_eq!(selector_from_digest(&digest).literal, "0x000a1001");
}

#[test]
fn names_of_scalars() {
    assert_eq!(abi_type_base(Base::U256), "uint256");
    assert_eq!(abi_type_base(Base::Address), "address");
    assert_eq!(abi_type_base(Base::Byte), "byte");
    assert_eq!(abi_type(FixedSize::Base(Base::U256)), "uint256");
    assert_eq!(abi_type(FixedSize::Base(Base::Address)), "address");
    assert_eq!(abi_type(FixedSize::Base(Base::Byte)), "byte");
}

#[test]
fn names_of_arrays() {
    assert_eq!(abi_type(bytes(32)), "bytes32");
    assert_eq!(
        abi_type(FixedSize::Array(Array { dimension: 4, inner: Base::U256 })),
        "uint256[4]"
    );
    assert_eq!(
        abi_type(FixedSize::Array(Array { dimension: 100, inner: Base::Address })),
        "address[100]"
    );
    assert_eq!(abi_type(bytes(1)), "bytes1");
    assert_eq!(abi_type(bytes(0)), "bytes0");
}

#[test]
fn signature_without_parameters() {
    assert_eq!(canonical_signature("foo", &vec![]), "foo()");
}

#[test]
fn signature_with_one_parameter() {
    assert_eq!(canonical_signature("bar", &vec![FixedSize::Base(Base::U256)]), "bar(uint256)");
}

#[test]
fn signature_separates_parameters_by_commas() {
    let params = vec![
        FixedSize::Base(Base::Address),
        bytes(16),
        FixedSize::Array(Array { dimension: 2, inner: Base::U256 }),
        FixedSize::Base(Base::Byte),
    ];
    assert_eq!(canonical_signature("f", &params), "f(address,bytes16,uint256[2],byte)");
}

#[test]
fn signature_keeps_the_name_as_it_is() {
    assert_eq!(canonical_signature("", &vec![]), "()");
    assert_eq!(canonical_signature("a b", &vec![bytes(3)]), "a b(bytes3)");
}
