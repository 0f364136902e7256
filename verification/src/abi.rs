//! The dynamic ABI type model, the fixed-type codec representation, and
//! the unifier that converts the former into the latter.
//!
//! `AbiType` mirrors the Solidity ABI type grammar, including named
//! structs; `CodecType` is the structurally analogous representation used
//! by the decoding codec, which has no notion of field names and no
//! function type. `unify` is the single conversion boundary between the
//! two.

use vstd::prelude::*;

verus! {

/// Errors of the type model: a type string outside the grammar, or an
/// attempt to unify the unsupported function type.
#[derive(Debug, Clone, Copy, PartialEq, Eq, Structural)]
pub enum TypeError {
    UnparseableType,
    UnsupportedFunctionType,
}

/// A Solidity ABI parameter type. `Int`, `Uint` carry a bit width,
/// `FixedBytes` a byte length, `FixedArray` an element count.
/// `NamedStruct` keeps the struct name and its field names; `Function`
/// is representable but cannot be unified.
#[derive(Debug, PartialEq, Eq)]
pub enum AbiType {
    Address,
    Bool,
    Bytes,
    Str,
    Int(usize),
    Uint(usize),
    FixedBytes(usize),
    Array(Box<AbiType>),
    FixedArray(Box<AbiType>, usize),
    Tuple(Vec<AbiType>),
    NamedStruct { name: String, prop_names: Vec<String>, tuple: Vec<AbiType> },
    Function,
}

/// A type of the fixed-type decoding codec: the same shapes as
/// `AbiType`, but structs collapse to tuples and there is no function
/// type.
#[derive(Debug, PartialEq, Eq)]
pub enum CodecType {
    Address,
    Bool,
    Bytes,
    Str,
    Int(usize),
    Uint(usize),
    FixedBytes(usize),
    Array(Box<CodecType>),
    FixedArray(Box<CodecType>, usize),
    Tuple(Vec<CodecType>),
}

/// Whether `Function` occurs anywhere in `t`, at any nesting depth.
pub open spec fn contains_function(t: AbiType) -> bool
    decreases t,
{
    match t {
        AbiType::Function => true,
        AbiType::Array(e) => contains_function(*e),
        AbiType::FixedArray(e, _) => contains_function(*e),
        AbiType::Tuple(ts) => exists|i: int|
            0 <= i < ts@.len() && contains_function(#[trigger] ts@[i]),
        AbiType::NamedStruct { tuple, .. } => exists|i: int|
            0 <= i < tuple@.len() && contains_function(#[trigger] tuple@[i]),
        _ => false,
    }
}

/// The unification relation: `c` is the codec type of `t`. Every shape
/// maps one-to-one, except that a named struct maps to the tuple of its
/// member types in declared order (names are dropped), and nothing maps
/// the function type.
pub open spec fn unified(t: AbiType, c: CodecType) -> bool
    decreases t,
{
    match t {
        AbiType::Address => c is Address,
        AbiType::Bool => c is Bool,
        AbiType::Bytes => c is Bytes,
        AbiType::Str => c is Str,
        AbiType::Int(n) => c == CodecType::Int(n),
        AbiType::Uint(n) => c == CodecType::Uint(n),
        AbiType::FixedBytes(n) => c == CodecType::FixedBytes(n),
        AbiType::Array(e) => c matches CodecType::Array(ce) && unified(*e, *ce),
        AbiType::FixedArray(e, n) => c matches CodecType::FixedArray(ce, m)
            && m == n && unified(*e, *ce),
        AbiType::Tuple(ts) => c matches CodecType::Tuple(cs)
            && cs@.len() == ts@.len()
            && forall|i: int| 0 <= i < ts@.len() ==> unified(#[trigger] ts@[i], cs@[i]),
        AbiType::NamedStruct { tuple, .. } => c matches CodecType::Tuple(cs)
            && cs@.len() == tuple@.len()
            && forall|i: int| 0 <= i < tuple@.len() ==> unified(#[trigger] tuple@[i], cs@[i]),
        AbiType::Function => false,
    }
}

/// Converts an ABI type to the codec's type representation: a
/// structure-preserving, depth-first mapping that succeeds exactly when
/// `t` contains no `Function`, and otherwise fails with
/// `UnsupportedFunctionType`.
pub fn unify(t: &AbiType) -> (r: Result<CodecType, TypeError>)
    ensures
        (match r {
            Ok(c) => !contains_function(*t) && unified(*t, c),
            Err(e) => contains_function(*t) && e == TypeError::UnsupportedFunctionType,
        }),
    decreases *t,
{
    match t {
        AbiType::Address => Ok(CodecType::Address),
        AbiType::Bool => Ok(CodecType::Bool),
        AbiType::Bytes => Ok(CodecType::Bytes),
        AbiType::Str => Ok(CodecType::Str),
        AbiType::Int(n) => Ok(CodecType::Int(*n)),
        AbiType::Uint(n) => Ok(CodecType::Uint(*n)),
        AbiType::FixedBytes(n) => Ok(CodecType::FixedBytes(*n)),
        AbiType::Array(e) => match unify(&**e) {
            Ok(c) => Ok(CodecType::Array(Box::new(c))),
            Err(err) => Err(err),
        },
        AbiType::FixedArray(e, n) => match unify(&**e) {
            Ok(c) => Ok(CodecType::FixedArray(Box::new(c), *n)),
            Err(err) => Err(err),
        },
        AbiType::Tuple(ts) => match unify_members(ts) {
            Ok(cs) => Ok(CodecType::Tuple(cs)),
            Err(err) => Err(err),
        },
        AbiType::NamedStruct { tuple, .. } => match unify_members(tuple) {
            Ok(cs) => Ok(CodecType::Tuple(cs)),
            Err(err) => Err(err),
        },
        AbiType::Function => Err(TypeError::UnsupportedFunctionType),
    }
}

/// Converts each member of a tuple or struct in order, failing on the
/// first member that contains `Function`.
fn unify_members(ts: &Vec<AbiType>) -> (r: Result<Vec<CodecType>, TypeError>)
    ensures
        (match r {
            Ok(cs) => {
                &&& cs@.len() == ts@.len()
                &&& forall|i: int| 0 <= i < ts@.len()
                    ==> !contains_function(#[trigger] ts@[i]) && unified(ts@[i], cs@[i])
            },
            Err(e) => {
                &&& e == TypeError::UnsupportedFunctionType
                &&& exists|i: int| 0 <= i < ts@.len() && contains_function(#[trigger] ts@[i])
            },
        }),
    decreases ts@,
{
    let mut out: Vec<CodecType> = Vec::new();
    let mut i: usize = 0;
    while i < ts.len()
        invariant
            i <= ts@.len(),
            out@.len() == i,
            forall|j: int| 0 <= j < i
                ==> !contains_function(#[trigger] ts@[j]) && unified(ts@[j], out@[j]),
        decreases ts@.len() - i,
    {
        match unify(&ts[i]) {
            Ok(c) => out.push(c),
            Err(err) => {
                return Err(err);
            },
        }
        i += 1;
    }
    Ok(out)
}

} // verus!
