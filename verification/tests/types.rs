use abi_dispatch::errors::CompileError;
use abi_dispatch::scopes::{ContractDef, ContractDefs};
use abi_dispatch::text::decimal_string;
use abi_dispatch::types::{Array, Base, FixedSize};

#[test]
fn widths_of_scalars() {
    assert_eq!(Base::U256.size(), 32);
    assert_eq!(Base::Address.size(), 32);
    assert_eq!(Base::Byte.size(), 1);
    assert_eq!(FixedSize::Base(Base::U256).size(), 32);
    assert_eq!(FixedSize::Base(Base::Byte).checked_size(), Some(1));
}

#[test]
fn width_of_an_array_is_dimension_times_element_width() {
    assert_eq!(Array { dimension: 100, inner: Base::U256 }.size(), 3200);
    assert_eq!(Array { dimension: 32, inner: Base::Byte }.size(), 32);
    assert_eq!(FixedSize::Array(Array { dimension: 3, inner: Base::Address }).size(), 96);
    assert_eq!(Array { dimension: 0, inner: Base::U256 }.checked_size(), Some(0));
}

#[test]
fn width_that_does_not_fit_is_reported() {
    let wide = Array { dimension: usize::MAX / 32 + 1, inner: Base::U256 };
    assert_eq!(wide.checked_size(), None);
    assert_eq!(FixedSize::Array(wide).checked_size(), None);
    let widest = Array { dimension: usize::MAX / 32, inner: Base::U256 };
    assert_eq!(widest.checked_size(), Some(usize::MAX / 32 * 32));
    assert_eq!(Array { dimension: usize::MAX, inner: Base::Byte }.checked_size(), Some(usize::MAX));
}

#[test]
fn well_formed_types() {
    assert!(FixedSize::Base(Base::U256).is_well_formed());
    assert!(FixedSize::Base(Base::Byte).is_well_formed());
    assert!(FixedSize::Array(Array { dimension: 1, inner: Base::Byte }).is_well_formed());
    assert!(!FixedSize::Array(Array { dimension: 0, inner: Base::Byte }).is_well_formed());
    assert!(
        !FixedSize::Array(Array { dimension: usize::MAX, inner: Base::Address }).is_well_formed()
    );
}

#[test]
fn decimal_numerals() {
    assert_eq!(decimal_string(0), "0");
    assert_eq!(decimal_string(7), "7");
    assert_eq!(decimal_string(9), "9");
    assert_eq!(decimal_string(10), "10");
    assert_eq!(decimal_string(36), "36");
    assert_eq!(decimal_string(1234567890), "1234567890");
    assert_eq!(decimal_string(usize::MAX), usize::MAX.to_string());
}

#[test]
fn messages_of_errors() {
    assert_eq!(
        CompileError::NonCallableDefinitionUsed.message(),
        "Cannot create case from definition"
    );
    assert_eq!(CompileError::UnresolvedFunctionName.message(), "No definition for name");
    assert_eq!(CompileError::DuplicateSelector.message(), "Duplicate selector");
    assert_eq!(CompileError::UnsupportedType.message(), "Unsupported type");
}

#[test]
fn errors_are_distinct() {
    let all = [
        CompileError::NonCallableDefinitionUsed,
        CompileError::UnresolvedFunctionName,
        CompileError::DuplicateSelector,
        CompileError::UnsupportedType,
    ];
    for (i, a) in all.iter().enumerate() {
        for (j, b) in all.iter().enumerate() {
            assert_eq!(a == b, i == j);
        }
    }
}

#[test]
fn table_finds_what_was_inserted() {
    let mut defs = ContractDefs::new();
    assert!(defs.get("foo").is_none());
    defs.insert(
        "foo".to_string(),
        ContractDef::Function { params: vec![], return_type: None },
    );
    defs.insert("bar".to_string(), ContractDef::Storage { typ: FixedSize::Base(Base::U256) });
    assert_eq!(
        defs.get("foo"),
        Some(&ContractDef::Function { params: vec![], return_type: None })
    );
    assert_eq!(
        defs.get("bar"),
        Some(&ContractDef::Storage { typ: FixedSize::Base(Base::U256) })
    );
    assert!(defs.get("baz").is_none());
}

#[test]
fn table_keeps_the_last_definition_of_a_name() {
    let mut defs = ContractDefs::new();
    defs.insert("foo".to_string(), ContractDef::Event { fields: vec![] });
    defs.insert(
        "foo".to_string(),
        ContractDef::Function {
            params: vec![FixedSize::Base(Base::Byte)],
            return_type: Some(FixedSize::Base(Base::Address)),
        },
    );
    assert_eq!(
        defs.get("foo"),
        Some(&ContractDef::Function {
            params: vec![FixedSize::Base(Base::Byte)],
            return_type: Some(FixedSize::Base(Base::Address)),
        })
    );
}
