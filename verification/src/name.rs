//! Qualified names, `module::function`.

use vstd::prelude::*;
use vstd::string::StrSliceExecFns;

verus! {

/// Whether the namespace separator `::` starts at position `i` of `s`.
pub open spec fn separator_at(s: Seq<char>, i: int) -> bool {
    0 <= i && i + 1 < s.len() && s[i] == ':' && s[i + 1] == ':'
}

/// Whether `i` is the place of the first separator in `s`.
pub open spec fn first_separator_at(s: Seq<char>, i: int) -> bool {
    separator_at(s, i) && forall|j: int| 0 <= j < i ==> !separator_at(s, j)
}

/// A qualified name cut at its first separator: what stands before it and
/// what stands after it. `None` where the name holds no separator.
pub open spec fn split_qualified(s: Seq<char>) -> Option<(Seq<char>, Seq<char>)> {
    if exists|i: int| separator_at(s, i) {
        let i = choose|i: int| first_separator_at(s, i);
        Some((s.subrange(0, i), s.subrange(i + 2, s.len() as int)))
    } else {
        None
    }
}

/// A first separator cuts the name the way [`split_qualified`] says.
pub proof fn lemma_split_at_first(s: Seq<char>, i: int)
    requires
        first_separator_at(s, i),
    ensures
        split_qualified(s) == Some((s.subrange(0, i), s.subrange(i + 2, s.len() as int))),
{
    assert(separator_at(s, i));
    let k = choose|k: int| first_separator_at(s, k);
    assert(first_separator_at(s, k));
    assert(k == i) by {
        if k < i {
            assert(!separator_at(s, k));
        }
        if i < k {
            assert(!separator_at(s, i));
        }
    }
}

/// A module name and a function name joined by the separator.
pub open spec fn qualified(module: Seq<char>, function: Seq<char>) -> Seq<char> {
    module + seq![':', ':'] + function
}

/// Joining and cutting are inverse: a qualified name made of a module name
/// that holds no separator and does not end in a colon is cut back into its
/// two parts, whatever the function name.
pub proof fn lemma_split_of_qualified(module: Seq<char>, function: Seq<char>)
    requires
        forall|i: int| !separator_at(module, i),
        module.len() > 0 ==> module.last() != ':',
    ensures
        split_qualified(qualified(module, function)) == Some((module, function)),
{
    let s = qualified(module, function);
    let at = module.len() as int;
    assert(s[at] == ':' && s[at + 1] == ':');
    assert forall|j: int| 0 <= j < at implies !separator_at(s, j) by {
        assert(s[j] == module[j]);
        if j + 1 < at {
            assert(s[j + 1] == module[j + 1]);
            assert(!separator_at(module, j));
        } else {
            assert(module[j] == module.last());
        }
    }
    lemma_split_at_first(s, at);
    assert(s.subrange(0, at) =~= module);
    assert(s.subrange(at + 2, s.len() as int) =~= function);
}

/// Cuts `name` at its first `::`.
pub fn split_name(name: &str) -> (r: Option<(&str, &str)>)
    ensures
        match r {
            Some((module, function)) => split_qualified(name@) == Some((module@, function@)),
            None => split_qualified(name@) is None,
        },
{
    let total = name.unicode_len();
    let mut after_colon = false;
    let mut at: usize = 0;
    for c in it: name.chars()
        invariant
            it.seq() == name@,
            at == it.index(),
            total == name@.len(),
            after_colon <==> (at > 0 && name@[at - 1] == ':'),
            forall|j: int| 0 <= j && j + 1 < at ==> !separator_at(name@, j),
    {
        if after_colon && c == ':' {
            proof {
                lemma_split_at_first(name@, at - 1);
            }
            return Some((name.substring_char(0, at - 1), name.substring_char(at + 1, total)));
        }
        after_colon = c == ':';
        at = at + 1;
    }
    None
}

} // verus!
