//! Directives: the raw `key=value` strings that the host framework supplies.

use vstd::prelude::*;
use vstd::string::*;

verus! {

/// The character that parts a directive's key from its value.
pub open spec fn separator() -> char {
    '='
}

/// `k` is the place of the first separator in `raw`.
pub open spec fn is_first_separator(raw: Seq<char>, k: int) -> bool {
    &&& 0 <= k < raw.len()
    &&& raw[k] == separator()
    &&& forall|j: int| 0 <= j < k ==> raw[j] != separator()
}

/// The key of a directive: what stands before its first separator, or the
/// whole string where there is none.
pub open spec fn spec_key(raw: Seq<char>) -> Seq<char> {
    if exists|k: int| is_first_separator(raw, k) {
        raw.subrange(0, choose|k: int| is_first_separator(raw, k))
    } else {
        raw
    }
}

/// The value of a directive: what stands behind its first separator, or the
/// empty string where there is none.
pub open spec fn spec_value(raw: Seq<char>) -> Seq<char> {
    if exists|k: int| is_first_separator(raw, k) {
        raw.subrange((choose|k: int| is_first_separator(raw, k)) + 1, raw.len() as int)
    } else {
        Seq::empty()
    }
}

/// A string has at most one first separator.
pub proof fn lemma_first_separator_unique(raw: Seq<char>, a: int, b: int)
    requires
        is_first_separator(raw, a),
        is_first_separator(raw, b),
    ensures
        a == b,
{
    if a < b {
        assert(raw[a] != separator());
    } else if b < a {
        assert(raw[b] != separator());
    }
}

/// Law: a directive without a separator is all key, and its value is empty.
pub proof fn lemma_split_without_separator(raw: Seq<char>)
    requires
        forall|i: int| 0 <= i < raw.len() ==> raw[i] != separator(),
    ensures
        spec_key(raw) == raw,
        spec_value(raw) == Seq::<char>::empty(),
{
    assert forall|k: int| !is_first_separator(raw, k) by {
        if 0 <= k < raw.len() {
            assert(raw[k] != separator());
        }
    }
}

/// Law: a directive is split at its first separator only. A key without a
/// separator, a separator and any value, which may hold separators of its
/// own, split into that key and that value.
pub proof fn lemma_split_joined(key: Seq<char>, value: Seq<char>)
    requires
        forall|i: int| 0 <= i < key.len() ==> key[i] != separator(),
    ensures
        spec_key(key + seq![separator()] + value) == key,
        spec_value(key + seq![separator()] + value) == value,
{
    let raw = key + seq![separator()] + value;
    let at = key.len() as int;
    assert(raw[at] == separator());
    assert forall|j: int| 0 <= j < at implies raw[j] != separator() by {
        assert(raw[j] == key[j]);
    }
    assert(is_first_separator(raw, at));
    lemma_first_separator_unique(raw, at, choose|k: int| is_first_separator(raw, k));
    assert(raw.subrange(0, at) == key);
    assert(raw.subrange(at + 1, raw.len() as int) == value);
}

/// Splits a directive at its first separator into key and value.
pub fn split_directive(raw: &str) -> (parts: (String, String))
    ensures
        parts.0@ == spec_key(raw@),
        parts.1@ == spec_value(raw@),
{
    let n = raw.unicode_len();
    let mut k: usize = 0;
    for c in it: raw.chars()
        invariant
            n == raw@.len(),
            it.seq() == raw@,
            k == it.index(),
            forall|j: int| 0 <= j < k ==> raw@[j] != separator(),
    {
        if c == '=' {
            proof {
                assert(is_first_separator(raw@, k as int));
                let w = choose|w: int| is_first_separator(raw@, w);
                lemma_first_separator_unique(raw@, k as int, w);
            }
            let key = raw.substring_char(0, k);
            let value = raw.substring_char(k + 1, n);
            return (key.to_owned(), value.to_owned());
        }
        k = k + 1;
    }
    proof {
        lemma_split_without_separator(raw@);
    }
    (raw.to_owned(), String::new())
}

/// The mapping that a sequence of directives resolves to. The directives are
/// entered in order, so a later one overwrites an earlier one of the same key.
pub open spec fn spec_directives(args: Seq<Seq<char>>) -> Map<Seq<char>, Seq<char>>
    decreases args.len(),
{
    if args.len() == 0 {
        Map::empty()
    } else {
        spec_directives(args.drop_last()).insert(spec_key(args.last()), spec_value(args.last()))
    }
}

/// The value that the directives give to `key`, if any of them names it.
pub open spec fn spec_lookup(args: Seq<Seq<char>>, key: Seq<char>) -> Option<Seq<char>> {
    let resolved = spec_directives(args);
    if resolved.dom().contains(key) {
        Some(resolved[key])
    } else {
        None
    }
}

/// Looks `key` up in the directives; the last directive that names it wins.
pub fn lookup(args: &Vec<String>, key: &str) -> (found: Option<String>)
    ensures
        found.deep_view() == spec_lookup(args.deep_view(), key@),
{
    let wanted = key.to_owned();
    let mut found: Option<String> = None;
    let mut i: usize = 0;
    while i < args.len()
        invariant
            i <= args.len(),
            wanted@ == key@,
            found.deep_view() == spec_lookup(args.deep_view().take(i as int), key@),
        decreases args.len() - i,
    {
        let (name, value) = split_directive(args[i].as_str());
        proof {
            let upto = args.deep_view().take(i + 1);
            assert(upto.drop_last() == args.deep_view().take(i as int));
            assert(upto.last() == args[i as int]@);
        }
        if name == wanted {
            found = Some(value);
        }
        i = i + 1;
    }
    proof {
        assert(args.deep_view().take(i as int) == args.deep_view());
    }
    found
}

} // verus!
