//! Resolving raw ABI parameter descriptions — a declared type string
//! plus optional nested components — into the dynamic ABI type model.
//!
//! The same resolution applies whether the raw parameter came from an
//! event parameter description or a general ABI parameter description.
//! A parameter with components is a struct: its components resolve to a
//! tuple, wrapped in an array when the declared type string carries the
//! `[]` suffix. A parameter without components is an elementary type
//! and its type string is parsed by the grammar.

use vstd::prelude::*;

use crate::abi::AbiType;
use crate::abi::TypeError;
use crate::typestr::parse_type_string;
use crate::typestr::parses_to;

verus! {

/// A raw ABI parameter description: the declared type string and the
/// nested component descriptions (non-empty exactly for struct types).
#[derive(Debug, PartialEq, Eq)]
pub struct RawParam {
    pub ty: String,
    pub components: Vec<RawParam>,
}

/// Whether the declared type string ends in the dynamic-array suffix
/// `[]`.
pub open spec fn has_array_suffix(s: Seq<char>) -> bool {
    s.len() >= 2 && s[s.len() - 2] == '[' && s[s.len() - 1] == ']'
}

/// The resolution relation: `t` is the type described by `p`. With
/// components, the components resolve in order to the members of a
/// tuple — wrapped as an array of that tuple when the type string ends
/// in `[]` (never a tuple of arrays). Without components, the type
/// string denotes `t` under the grammar.
pub open spec fn resolves_to(p: RawParam, t: AbiType) -> bool
    decreases p,
{
    if p.components@.len() > 0 {
        if has_array_suffix(p.ty@) {
            t matches AbiType::Array(e) && *e matches AbiType::Tuple(ts)
                && ts@.len() == p.components@.len()
                && forall|i: int| 0 <= i < p.components@.len()
                    ==> resolves_to(#[trigger] p.components@[i], ts@[i])
        } else {
            t matches AbiType::Tuple(ts) && ts@.len() == p.components@.len()
                && forall|i: int| 0 <= i < p.components@.len()
                    ==> resolves_to(#[trigger] p.components@[i], ts@[i])
        }
    } else {
        parses_to(p.ty@, t)
    }
}

/// Whether `p` resolves at all: every component resolves, and a
/// component-free parameter has a type string of the grammar.
pub open spec fn resolvable(p: RawParam) -> bool
    decreases p,
{
    if p.components@.len() > 0 {
        forall|i: int| 0 <= i < p.components@.len() ==> resolvable(#[trigger] p.components@[i])
    } else {
        exists|t: AbiType| parses_to(p.ty@, t)
    }
}

/// Whether the exec string `s` ends in the `[]` suffix.
fn ends_with_array_suffix(s: &str) -> (r: bool)
    ensures
        r == has_array_suffix(s@),
{
    let n = s.unicode_len();
    n >= 2 && s.get_char(n - 2) == '[' && s.get_char(n - 1) == ']'
}

/// Resolves a raw parameter description to its ABI type. Components,
/// when present, are resolved first; the array suffix of the outer type
/// string then decides whether the resulting tuple is wrapped as an
/// array. Fails with `UnparseableType` exactly when some component-free
/// description (the parameter itself or a nested component) has a type
/// string outside the grammar.
pub fn resolve(p: &RawParam) -> (r: Result<AbiType, TypeError>)
    ensures
        (match r {
            Ok(t) => resolvable(*p) && resolves_to(*p, t),
            Err(e) => !resolvable(*p) && e == TypeError::UnparseableType,
        }),
    decreases *p,
{
    if p.components.len() > 0 {
        match resolve_components(&p.components) {
            Ok(ts) => {
                if ends_with_array_suffix(p.ty.as_str()) {
                    Ok(AbiType::Array(Box::new(AbiType::Tuple(ts))))
                } else {
                    Ok(AbiType::Tuple(ts))
                }
            },
            Err(e) => Err(e),
        }
    } else {
        parse_type_string(p.ty.as_str())
    }
}

/// Resolves each component in order, failing on the first component
/// that does not resolve.
fn resolve_components(ps: &Vec<RawParam>) -> (r: Result<Vec<AbiType>, TypeError>)
    ensures
        (match r {
            Ok(ts) => {
                &&& ts@.len() == ps@.len()
                &&& forall|i: int| 0 <= i < ps@.len()
                    ==> resolvable(#[trigger] ps@[i]) && resolves_to(ps@[i], ts@[i])
            },
            Err(e) => {
                &&& e == TypeError::UnparseableType
                &&& exists|i: int| 0 <= i < ps@.len() && !resolvable(#[trigger] ps@[i])
            },
        }),
    decreases ps@,
{
    let mut out: Vec<AbiType> = Vec::new();
    let mut i: usize = 0;
    while i < ps.len()
        invariant
            i <= ps@.len(),
            out@.len() == i,
            forall|j: int| 0 <= j < i
                ==> resolvable(#[trigger] ps@[j]) && resolves_to(ps@[j], out@[j]),
        decreases ps@.len() - i,
    {
        match resolve(&ps[i]) {
            Ok(t) => out.push(t),
            Err(e) => {
                return Err(e);
            },
        }
        i += 1;
    }
    Ok(out)
}

} // verus!
