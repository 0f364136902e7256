use shadow_core::abi::{unify, AbiType, CodecType, TypeError};

#[test]
fn primitives_unify_one_to_one() {
    assert_eq!(unify(&AbiType::Address), Ok(CodecType::Address));
    assert_eq!(unify(&AbiType::Bool), Ok(CodecType::Bool));
    assert_eq!(unify(&AbiType::Bytes), Ok(CodecType::Bytes));
    assert_eq!(unify(&AbiType::Str), Ok(CodecType::Str));
    assert_eq!(unify(&AbiType::Int(128)), Ok(CodecType::Int(128)));
    assert_eq!(unify(&AbiType::Uint(256)), Ok(CodecType::Uint(256)));
    assert_eq!(unify(&AbiType::FixedBytes(32)), Ok(CodecType::FixedBytes(32)));
}

#[test]
fn nested_arrays_and_tuples_keep_their_shape() {
    let t = AbiType::FixedArray(
        Box::new(AbiType::Array(Box::new(AbiType::Tuple(vec![
            AbiType::Uint(8),
            AbiType::Bool,
        ])))),
        3,
    );
    let expected = CodecType::FixedArray(
        Box::new(CodecType::Array(Box::new(CodecType::Tuple(vec![
            CodecType::Uint(8),
            CodecType::Bool,
        ])))),
        3,
    );
    assert_eq!(unify(&t), Ok(expected));
}

#[test]
fn named_struct_collapses_to_tuple_in_declared_order() {
    let t = AbiType::NamedStruct {
        name: String::from("Order"),
        prop_names: vec![String::from("maker"), String::from("amounts")],
        tuple: vec![AbiType::Address, AbiType::Array(Box::new(AbiType::Uint(256)))],
    };
    let expected = CodecType::Tuple(vec![
        CodecType::Address,
        CodecType::Array(Box::new(CodecType::Uint(256))),
    ]);
    assert_eq!(unify(&t), Ok(expected));
}

#[test]
fn struct_nested_in_struct_round_trips_shape() {
    let inner = AbiType::NamedStruct {
        name: String::from("Leg"),
        prop_names: vec![String::from("token"), String::from("amount")],
        tuple: vec![AbiType::Address, AbiType::Uint(256)],
    };
    let t = AbiType::NamedStruct {
        name: String::from("Swap"),
        prop_names: vec![String::from("legs"), String::from("deadline")],
        tuple: vec![AbiType::Array(Box::new(inner)), AbiType::Uint(64)],
    };
    let expected = CodecType::Tuple(vec![
        CodecType::Array(Box::new(CodecType::Tuple(vec![
            CodecType::Address,
            CodecType::Uint(256),
        ]))),
        CodecType::Uint(64),
    ]);
    assert_eq!(unify(&t), Ok(expected));
}

#[test]
fn bare_function_type_fails_to_unify() {
    assert_eq!(unify(&AbiType::Function), Err(TypeError::UnsupportedFunctionType));
}

#[test]
fn deeply_nested_function_type_fails_to_unify() {
    let t = AbiType::Array(Box::new(AbiType::Tuple(vec![
        AbiType::Bool,
        AbiType::FixedArray(Box::new(AbiType::Function), 2),
    ])));
    assert_eq!(unify(&t), Err(TypeError::UnsupportedFunctionType));
}

#[test]
fn function_inside_named_struct_fails_to_unify() {
    let t = AbiType::NamedStruct {
        name: String::from("Hook"),
        prop_names: vec![String::from("target")],
        tuple: vec![AbiType::Function],
    };
    assert_eq!(unify(&t), Err(TypeError::UnsupportedFunctionType));
}

#[test]
fn empty_tuple_unifies_to_empty_tuple() {
    assert_eq!(unify(&AbiType::Tuple(vec![])), Ok(CodecType::Tuple(vec![])));
}
