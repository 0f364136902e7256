//! The Solidity ABI type-string grammar: parsing strings such as
//! `"uint256"`, `"address"`, `"bytes32"` or `"uint8[4][]"` into the
//! dynamic ABI type model.
//!
//! The grammar accepted here is the elementary-type grammar of the ABI:
//! the base types `address`, `bool`, `bytes`, `string`, `function`,
//! `uintN` / `intN` with a bit width that is a positive multiple of 8 up
//! to 256 (plain `uint` / `int` mean 256), and `bytesN` with a byte
//! length from 1 to 32, followed by any chain of `[]` (dynamic array)
//! and `[k]` (fixed-size array) suffixes, outermost last. A fixed size
//! must fit the machine's word size.

use vstd::prelude::*;

use crate::abi::AbiType;
use crate::abi::TypeError;

verus! {

/// Whether `c` is a decimal digit.
pub open spec fn is_digit(c: char) -> bool {
    '0' as u32 <= c as u32 && c as u32 <= '9' as u32
}

/// The numeric value of the digit `c`.
pub open spec fn digit_val(c: char) -> nat {
    (c as u32 - '0' as u32) as nat
}

/// Whether every character of `s` is a decimal digit.
pub open spec fn all_digits(s: Seq<char>) -> bool {
    forall|i: int| 0 <= i < s.len() ==> is_digit(#[trigger] s[i])
}

/// The number denoted by the digit string `s`, most significant digit
/// first.
pub open spec fn digits_val(s: Seq<char>) -> nat
    decreases s.len(),
{
    if s.len() == 0 {
        0
    } else {
        digits_val(s.drop_last()) * 10 + digit_val(s.last())
    }
}

/// The index of the last occurrence of `c` in `s`, or `-1` when `c`
/// does not occur.
pub open spec fn last_at(s: Seq<char>, c: char) -> int
    decreases s.len(),
{
    if s.len() == 0 {
        -1
    } else if s.last() == c {
        s.len() - 1
    } else {
        last_at(s.drop_last(), c)
    }
}

/// A bit width a `uint` or `int` can have: a positive multiple of 8, at
/// most 256.
pub open spec fn valid_bit_width(w: nat) -> bool {
    0 < w <= 256 && w % 8 == 0
}

/// A byte length a `bytesN` type can have.
pub open spec fn valid_bytes_len(w: nat) -> bool {
    1 <= w <= 32
}

/// The base (suffix-free) productions of the grammar: `t` is the type
/// denoted by the base type string `s`.
pub open spec fn base_of(s: Seq<char>, t: AbiType) -> bool {
    if s == "address"@ {
        t == AbiType::Address
    } else if s == "bool"@ {
        t == AbiType::Bool
    } else if s == "bytes"@ {
        t == AbiType::Bytes
    } else if s == "string"@ {
        t == AbiType::Str
    } else if s == "function"@ {
        t == AbiType::Function
    } else if s == "uint"@ {
        t == AbiType::Uint(256)
    } else if s == "int"@ {
        t == AbiType::Int(256)
    } else if s.len() > 4 && s.subrange(0, 4) == "uint"@ {
        let d = s.subrange(4, s.len() as int);
        &&& all_digits(d)
        &&& valid_bit_width(digits_val(d))
        &&& t == AbiType::Uint(digits_val(d) as usize)
    } else if s.len() > 3 && s.subrange(0, 3) == "int"@ {
        let d = s.subrange(3, s.len() as int);
        &&& all_digits(d)
        &&& valid_bit_width(digits_val(d))
        &&& t == AbiType::Int(digits_val(d) as usize)
    } else if s.len() > 5 && s.subrange(0, 5) == "bytes"@ {
        let d = s.subrange(5, s.len() as int);
        &&& all_digits(d)
        &&& valid_bytes_len(digits_val(d))
        &&& t == AbiType::FixedBytes(digits_val(d) as usize)
    } else {
        false
    }
}

/// The full grammar: `t` is the type denoted by the type string `s`.
/// A string ending in `]` is an array type whose element type is
/// denoted by everything before the last `[`; the bracket body is
/// either empty (dynamic array) or a digit string giving the fixed
/// size. Any other string must be a base production.
pub open spec fn parses_to(s: Seq<char>, t: AbiType) -> bool
    decreases s.len(),
{
    let n = s.len() as int;
    if n >= 2 && s[n - 1] == ']' {
        let k = last_at(s, '[');
        if 1 <= k < n - 1 {
            let inner = s.subrange(0, k);
            let body = s.subrange(k + 1, n - 1);
            if body.len() == 0 {
                t matches AbiType::Array(e) && parses_to(inner, *e)
            } else {
                &&& all_digits(body)
                &&& digits_val(body) <= usize::MAX as nat
                &&& t matches AbiType::FixedArray(e, m) && m == digits_val(body) as usize
                    && parses_to(inner, *e)
            }
        } else {
            false
        }
    } else {
        base_of(s, t)
    }
}

/// `last_at` is indeed the last occurrence: it returns `k` whenever
/// `s[k] == c` and no later index holds `c`.
proof fn lemma_last_at_found(s: Seq<char>, c: char, k: int)
    requires
        0 <= k < s.len(),
        s[k] == c,
        forall|j: int| k < j < s.len() ==> s[j] != c,
    ensures
        last_at(s, c) == k,
    decreases s.len(),
{
    if k < s.len() - 1 {
        lemma_last_at_found(s.drop_last(), c, k);
    }
}

/// `last_at` returns `-1` when `c` does not occur in `s`.
proof fn lemma_last_at_absent(s: Seq<char>, c: char)
    requires
        forall|j: int| 0 <= j < s.len() ==> s[j] != c,
    ensures
        last_at(s, c) == -1,
    decreases s.len(),
{
    if s.len() > 0 {
        lemma_last_at_absent(s.drop_last(), c);
    }
}

/// A digit string is worth at least any of its prefixes.
proof fn lemma_digits_val_mono(s: Seq<char>, i: int)
    requires
        0 <= i <= s.len(),
    ensures
        digits_val(s.subrange(0, i)) <= digits_val(s),
    decreases s.len(),
{
    if i == s.len() {
        assert(s.subrange(0, i) =~= s);
    } else {
        assert(s.drop_last().subrange(0, i) =~= s.subrange(0, i));
        lemma_digits_val_mono(s.drop_last(), i);
    }
}

/// Whether the character ranges of `a` and `b` are equal.
fn str_eq(a: &str, b: &str) -> (r: bool)
    ensures
        r == (a@ == b@),
{
    let n = a.unicode_len();
    let m = b.unicode_len();
    if n != m {
        return false;
    }
    let mut i: usize = 0;
    while i < n
        invariant
            n == a@.len(),
            n == b@.len(),
            i <= n,
            forall|j: int| 0 <= j < i ==> a@[j] == b@[j],
        decreases n - i,
    {
        if a.get_char(i) != b.get_char(i) {
            return false;
        }
        i += 1;
    }
    proof {
        assert(a@ =~= b@);
    }
    true
}

/// Whether `s` begins with the characters of `p`.
fn str_starts_with(s: &str, p: &str) -> (r: bool)
    ensures
        r == (s@.len() >= p@.len() && s@.subrange(0, p@.len() as int) == p@),
{
    let n = s.unicode_len();
    let m = p.unicode_len();
    if n < m {
        return false;
    }
    let mut i: usize = 0;
    while i < m
        invariant
            n == s@.len(),
            m == p@.len(),
            m <= n,
            i <= m,
            forall|j: int| 0 <= j < i ==> s@[j] == p@[j],
        decreases m - i,
    {
        if s.get_char(i) != p.get_char(i) {
            return false;
        }
        i += 1;
    }
    proof {
        assert(s@.subrange(0, p@.len() as int) =~= p@);
    }
    true
}

/// The index of the last occurrence of `c` in `s`, if any.
fn rfind_char(s: &str, c: char) -> (r: Option<usize>)
    ensures
        (match r {
            Some(k) => {
                &&& k < s@.len()
                &&& s@[k as int] == c
                &&& forall|j: int| k < j < s@.len() ==> s@[j] != c
            },
            None => forall|j: int| 0 <= j < s@.len() ==> s@[j] != c,
        }),
{
    let n = s.unicode_len();
    let mut i: usize = n;
    while i > 0
        invariant
            n == s@.len(),
            i <= n,
            forall|j: int| i <= j < n ==> s@[j] != c,
        decreases i,
    {
        i -= 1;
        if s.get_char(i) == c {
            return Some(i);
        }
    }
    None
}

/// Reads the digit string at `s[from..to]` as a number. Fails when the
/// range is empty, holds a non-digit, or denotes a number too large for
/// the machine's word size.
fn parse_digits(s: &str, from: usize, to: usize) -> (r: Option<usize>)
    requires
        from <= to <= s@.len(),
    ensures
        ({
            let d = s@.subrange(from as int, to as int);
            match r {
                Some(v) => to > from && all_digits(d) && digits_val(d) == v,
                None => !(to > from && all_digits(d) && digits_val(d) <= usize::MAX as nat),
            }
        }),
{
    if to == from {
        return None;
    }
    let mut val: u128 = 0;
    let mut i: usize = from;
    while i < to
        invariant
            from <= i <= to <= s@.len(),
            all_digits(s@.subrange(from as int, i as int)),
            val == digits_val(s@.subrange(from as int, i as int)),
            val <= usize::MAX as u128,
        decreases to - i,
    {
        let c = s.get_char(i);
        let cv = c as u32;
        if cv < 48 || cv > 57 {
            proof {
                assert('0' as u32 == 48 && '9' as u32 == 57);
                assert(!is_digit(s@[i as int]));
                assert(s@.subrange(from as int, to as int)[i - from] == s@[i as int]);
            }
            return None;
        }
        let d: u128 = (cv - 48) as u128;
        proof {
            assert(s@.subrange(from as int, i + 1).drop_last() =~= s@.subrange(
                from as int,
                i as int,
            ));
            assert(s@.subrange(from as int, i + 1).last() == s@[i as int]);
            assert('0' as u32 == 48);
        }
        val = val * 10 + d;
        if val > usize::MAX as u128 {
            proof {
                let whole = s@.subrange(from as int, to as int);
                if all_digits(whole) {
                    lemma_digits_val_mono(whole, i + 1 - from);
                    assert(whole.subrange(0, i + 1 - from) =~= s@.subrange(from as int, i + 1));
                }
            }
            return None;
        }
        i += 1;
    }
    proof {
        assert(s@.subrange(from as int, i as int) =~= s@.subrange(from as int, to as int));
    }
    Some(val as usize)
}

/// Parses a base (suffix-free) type string, per the grammar's base
/// productions.
fn parse_base(s: &str) -> (r: Result<AbiType, TypeError>)
    ensures
        (match r {
            Ok(t) => base_of(s@, t),
            Err(e) => {
                &&& e == TypeError::UnparseableType
                &&& forall|t: AbiType| !(#[trigger] base_of(s@, t))
            },
        }),
{
    let n = s.unicode_len();
    if str_eq(s, "address") {
        Ok(AbiType::Address)
    } else if str_eq(s, "bool") {
        Ok(AbiType::Bool)
    } else if str_eq(s, "bytes") {
        Ok(AbiType::Bytes)
    } else if str_eq(s, "string") {
        Ok(AbiType::Str)
    } else if str_eq(s, "function") {
        Ok(AbiType::Function)
    } else if str_eq(s, "uint") {
        Ok(AbiType::Uint(256))
    } else if str_eq(s, "int") {
        Ok(AbiType::Int(256))
    } else if n > 4 && str_starts_with(s, "uint") {
        proof {
            reveal_strlit("uint");
        }
        match parse_digits(s, 4, n) {
            Some(v) => {
                if 0 < v && v <= 256 && v % 8 == 0 {
                    Ok(AbiType::Uint(v))
                } else {
                    Err(TypeError::UnparseableType)
                }
            },
            None => Err(TypeError::UnparseableType),
        }
    } else if n > 3 && str_starts_with(s, "int") {
        proof {
            reveal_strlit("int");
        }
        match parse_digits(s, 3, n) {
            Some(v) => {
                if 0 < v && v <= 256 && v % 8 == 0 {
                    Ok(AbiType::Int(v))
                } else {
                    Err(TypeError::UnparseableType)
                }
            },
            None => Err(TypeError::UnparseableType),
        }
    } else if n > 5 && str_starts_with(s, "bytes") {
        proof {
            reveal_strlit("bytes");
        }
        match parse_digits(s, 5, n) {
            Some(v) => {
                if 1 <= v && v <= 32 {
                    Ok(AbiType::FixedBytes(v))
                } else {
                    Err(TypeError::UnparseableType)
                }
            },
            None => Err(TypeError::UnparseableType),
        }
    } else {
        Err(TypeError::UnparseableType)
    }
}

/// Parses a full type string: a base production followed by any chain
/// of array suffixes. Returns `UnparseableType` exactly when no type of
/// the grammar is denoted by `s`.
pub fn parse_type_string(s: &str) -> (r: Result<AbiType, TypeError>)
    ensures
        (match r {
            Ok(t) => parses_to(s@, t),
            Err(e) => {
                &&& e == TypeError::UnparseableType
                &&& forall|t: AbiType| !(#[trigger] parses_to(s@, t))
            },
        }),
    decreases s@.len(),
{
    let n = s.unicode_len();
    if n >= 2 && s.get_char(n - 1) == ']' {
        match rfind_char(s, '[') {
            Some(k) => {
                proof {
                    lemma_last_at_found(s@, '[', k as int);
                    assert('[' as u32 == 91 && ']' as u32 == 93);
                    assert(s@[k as int] == '[' && s@[n - 1] == ']');
                    assert(k < n - 1);
                }
                if k == 0 {
                    Err(TypeError::UnparseableType)
                } else {
                    let inner_str = s.substring_char(0, k);
                    if k + 2 == n {
                        match parse_type_string(inner_str) {
                            Ok(t) => Ok(AbiType::Array(Box::new(t))),
                            Err(e) => {
                                proof {
                                    assert forall|t2: AbiType| !(#[trigger] parses_to(
                                        s@,
                                        t2,
                                    )) by {
                                        if t2 is Array {
                                            assert(!parses_to(inner_str@, *t2->Array_0));
                                        }
                                    }
                                }
                                Err(e)
                            },
                        }
                    } else {
                        match parse_digits(s, k + 1, n - 1) {
                            Some(v) => match parse_type_string(inner_str) {
                                Ok(t) => Ok(AbiType::FixedArray(Box::new(t), v)),
                                Err(e) => {
                                    proof {
                                        assert forall|t2: AbiType| !(#[trigger] parses_to(
                                            s@,
                                            t2,
                                        )) by {
                                            if t2 is FixedArray {
                                                assert(!parses_to(inner_str@, *t2->FixedArray_0));
                                            }
                                        }
                                    }
                                    Err(e)
                                },
                            },
                            None => Err(TypeError::UnparseableType),
                        }
                    }
                }
            },
            None => {
                proof {
                    lemma_last_at_absent(s@, '[');
                }
                Err(TypeError::UnparseableType)
            },
        }
    } else {
        parse_base(s)
    }
}

} // verus!
