//! Parsing of contract identifier strings of the form `File.ext` or
//! `File.ext:Name` into a `(file_name, contract_name)` pair.

use vstd::prelude::*;

verus! {

/// Whether the character `c` occurs anywhere in `s`.
pub open spec fn occurs(s: Seq<char>, c: char) -> bool {
    exists|i: int| 0 <= i < s.len() && s[i] == c
}

/// Everything in `s` strictly before the first occurrence of `c`;
/// all of `s` when `c` does not occur.
pub open spec fn before_first(s: Seq<char>, c: char) -> Seq<char>
    decreases s.len(),
{
    if s.len() == 0 {
        s
    } else if s[0] == c {
        Seq::empty()
    } else {
        seq![s[0]] + before_first(s.drop_first(), c)
    }
}

/// Everything in `s` strictly after the first occurrence of `c`;
/// empty when `c` does not occur.
pub open spec fn after_first(s: Seq<char>, c: char) -> Seq<char>
    decreases s.len(),
{
    if s.len() == 0 {
        Seq::empty()
    } else if s[0] == c {
        s.drop_first()
    } else {
        after_first(s.drop_first(), c)
    }
}

/// The file-name part of a contract identifier: everything before the
/// first `:`, or the whole string when there is none.
pub open spec fn spec_file_name(s: Seq<char>) -> Seq<char> {
    before_first(s, ':')
}

/// The contract-name part of a contract identifier: everything after the
/// first `:` when there is one, and otherwise the part of the file name
/// before its first `.` (the whole file name when there is no `.`).
pub open spec fn spec_contract_name(s: Seq<char>) -> Seq<char> {
    if occurs(s, ':') {
        after_first(s, ':')
    } else {
        before_first(s, '.')
    }
}

/// When `c` does not occur in `s`, the part before the first `c` is all
/// of `s` and the part after it is empty.
pub proof fn lemma_split_absent(s: Seq<char>, c: char)
    requires
        !occurs(s, c),
    ensures
        before_first(s, c) == s,
        after_first(s, c) == Seq::<char>::empty(),
    decreases s.len(),
{
    if s.len() == 0 {
        assert(before_first(s, c) =~= s);
        assert(after_first(s, c) =~= Seq::<char>::empty());
    } else {
        assert(s[0] != c);
        assert(!occurs(s.drop_first(), c)) by {
            if occurs(s.drop_first(), c) {
                let i = choose|i: int| 0 <= i < s.drop_first().len() && s.drop_first()[i] == c;
                assert(s[i + 1] == c);
            }
        }
        lemma_split_absent(s.drop_first(), c);
        assert(before_first(s, c) =~= s);
    }
}

/// `before_first` and `after_first` split `s` exactly at the index of the
/// first occurrence of `c`: the two parts are the subranges on either side
/// of that index.
pub proof fn lemma_split_at_first(s: Seq<char>, c: char, i: int)
    requires
        0 <= i < s.len(),
        s[i] == c,
        forall|j: int| 0 <= j < i ==> s[j] != c,
    ensures
        occurs(s, c),
        before_first(s, c) == s.subrange(0, i),
        after_first(s, c) == s.subrange(i + 1, s.len() as int),
    decreases i,
{
    if i == 0 {
        assert(before_first(s, c) =~= s.subrange(0, 0));
        assert(after_first(s, c) =~= s.subrange(1, s.len() as int));
    } else {
        let t = s.drop_first();
        assert(t[i - 1] == c);
        assert(forall|j: int| 0 <= j < i - 1 ==> t[j] != c);
        lemma_split_at_first(t, c, i - 1);
        assert(before_first(s, c) =~= s.subrange(0, i));
        assert(after_first(s, c) =~= s.subrange(i + 1, s.len() as int));
    }
}

/// For a string with a `:` at index `i` and none before it, the parse
/// splits there: the file name is everything before `i`, and the
/// contract name is everything after `i`, verbatim.
pub proof fn lemma_parse_splits_at_first_colon(s: Seq<char>, i: int)
    requires
        0 <= i < s.len(),
        s[i] == ':',
        forall|j: int| 0 <= j < i ==> s[j] != ':',
    ensures
        spec_file_name(s) == s.subrange(0, i),
        spec_contract_name(s) == s.subrange(i + 1, s.len() as int),
{
    lemma_split_at_first(s, ':', i);
}

/// For a string without `:`, the file name is the whole string
/// unchanged, and the contract name is the part of the string before
/// its first `.`.
pub proof fn lemma_parse_without_colon(s: Seq<char>)
    requires
        !occurs(s, ':'),
    ensures
        spec_file_name(s) == s,
        spec_contract_name(s) == before_first(s, '.'),
{
    lemma_split_absent(s, ':');
}

/// The index of the first occurrence of `c` in `s`, if any.
fn find_char(s: &str, c: char) -> (r: Option<usize>)
    ensures
        (match r {
            Some(i) => {
                &&& i < s@.len()
                &&& s@[i as int] == c
                &&& forall|j: int| 0 <= j < i ==> s@[j] != c
            },
            None => !occurs(s@, c),
        }),
{
    let n = s.unicode_len();
    let mut i: usize = 0;
    while i < n
        invariant
            n == s@.len(),
            i <= n,
            forall|j: int| 0 <= j < i ==> s@[j] != c,
        decreases n - i,
    {
        if s.get_char(i) == c {
            return Some(i);
        }
        i += 1;
    }
    None
}

/// Splits a contract identifier string into a file name and a contract
/// name. The file name is everything before the first `:` (the whole
/// string when there is none). The contract name is everything after the
/// first `:` when one is present, and otherwise the part of the file name
/// before its first `.`.
pub fn parse_contract_string(contract: &str) -> (r: (String, String))
    ensures
        r.0@ == spec_file_name(contract@),
        r.1@ == spec_contract_name(contract@),
{
    let n = contract.unicode_len();
    match find_char(contract, ':') {
        Some(i) => {
            let file_name = contract.substring_char(0, i).to_owned();
            let contract_name = contract.substring_char(i + 1, n).to_owned();
            proof {
                lemma_split_at_first(contract@, ':', i as int);
            }
            (file_name, contract_name)
        },
        None => {
            let file_name = contract.to_owned();
            proof {
                lemma_split_absent(contract@, ':');
            }
            let contract_name = match find_char(contract, '.') {
                Some(j) => {
                    proof {
                        lemma_split_at_first(contract@, '.', j as int);
                    }
                    contract.substring_char(0, j).to_owned()
                },
                None => {
                    proof {
                        lemma_split_absent(contract@, '.');
                    }
                    contract.to_owned()
                },
            };
            (file_name, contract_name)
        },
    }
}

} // verus!
