use shadow_core::abi::{AbiType, TypeError};
use shadow_core::param::{resolve, RawParam};

fn elementary(ty: &str) -> RawParam {
    RawParam { ty: String::from(ty), components: vec![] }
}

#[test]
fn component_free_uint256_resolves_to_uint_256() {
    let raw = elementary("uint256");
    assert_eq!(resolve(&raw), Ok(AbiType::Uint(256)));
}

#[test]
fn components_without_suffix_resolve_to_a_tuple() {
    let raw = RawParam {
        ty: String::from("tuple"),
        components: vec![elementary("address"), elementary("uint256")],
    };
    assert_eq!(
        resolve(&raw),
        Ok(AbiType::Tuple(vec![AbiType::Address, AbiType::Uint(256)]))
    );
}

#[test]
fn components_with_array_suffix_resolve_to_array_of_tuple() {
    let raw = RawParam {
        ty: String::from("tuple[]"),
        components: vec![elementary("uint256"), elementary("address")],
    };
    let got = resolve(&raw).unwrap();
    let expected = AbiType::Array(Box::new(AbiType::Tuple(vec![
        AbiType::Uint(256),
        AbiType::Address,
    ])));
    assert_eq!(got, expected);
    // The other association — a tuple of arrays — must not come out.
    let wrong = AbiType::Tuple(vec![
        AbiType::Array(Box::new(AbiType::Uint(256))),
        AbiType::Array(Box::new(AbiType::Address)),
    ]);
    assert_ne!(got, wrong);
}

#[test]
fn nested_components_resolve_recursively() {
    let inner = RawParam {
        ty: String::from("tuple"),
        components: vec![elementary("address"), elementary("bytes32")],
    };
    let raw = RawParam {
        ty: String::from("tuple[]"),
        components: vec![inner, elementary("bool[]")],
    };
    let expected = AbiType::Array(Box::new(AbiType::Tuple(vec![
        AbiType::Tuple(vec![AbiType::Address, AbiType::FixedBytes(32)]),
        AbiType::Array(Box::new(AbiType::Bool)),
    ])));
    assert_eq!(resolve(&raw), Ok(expected));
}

#[test]
fn unknown_type_string_fails_to_resolve() {
    let raw = elementary("uint255");
    assert_eq!(resolve(&raw), Err(TypeError::UnparseableType));
}

#[test]
fn bad_nested_component_fails_the_whole_resolution() {
    let raw = RawParam {
        ty: String::from("tuple"),
        components: vec![elementary("address"), elementary("not-a-type")],
    };
    assert_eq!(resolve(&raw), Err(TypeError::UnparseableType));
}
