use vstd::prelude::*;
use crate::mods::DirEntry;
use crate::names::{path_extension_spec, path_has_extension};

verus! {

/// Whether a walked entry is a plain file whose name carries exactly the
/// sought extension. Matching is case-sensitive and exact.
pub open spec fn entry_matches(e: DirEntry, ext: Seq<char>) -> bool {
    e.is_file && path_extension_spec(e.path@) == Some(ext)
}

/// The path of the first matching entry, in the order the entries stand.
pub open spec fn first_match_spec(entries: Seq<DirEntry>, ext: Seq<char>) -> Option<Seq<char>>
    decreases entries.len(),
{
    if entries.len() == 0 {
        None
    } else if entry_matches(entries[0], ext) {
        Some(entries[0].path@)
    } else {
        first_match_spec(entries.drop_first(), ext)
    }
}

/// What the first match is: nothing exactly when no entry matches, else the
/// path of a matching entry that no earlier entry precedes.
pub proof fn lemma_first_match(entries: Seq<DirEntry>, ext: Seq<char>)
    ensures
        first_match_spec(entries, ext) is None <==> (forall|i: int|
            0 <= i < entries.len() ==> !entry_matches(#[trigger] entries[i], ext)),
        first_match_spec(entries, ext) matches Some(p) ==> exists|i: int|
            0 <= i < entries.len() && entry_matches(#[trigger] entries[i], ext) && p
                == entries[i].path@ && (forall|j: int|
                0 <= j < i ==> !entry_matches(#[trigger] entries[j], ext)),
    decreases entries.len(),
{
    if entries.len() == 0 {
    } else if entry_matches(entries[0], ext) {
    } else {
        let rest = entries.drop_first();
        lemma_first_match(rest, ext);
        assert(forall|i: int| 0 <= i < rest.len() ==> #[trigger] rest[i] == entries[i + 1]);
        if first_match_spec(entries, ext) is None {
            assert forall|i: int| 0 <= i < entries.len() implies !entry_matches(
                entries[i],
                ext,
            ) by {
                if i > 0 {
                    assert(!entry_matches(rest[i - 1], ext));
                }
            }
        }
        if forall|i: int| 0 <= i < entries.len() ==> !entry_matches(#[trigger] entries[i], ext) {
            assert forall|i: int| 0 <= i < rest.len() implies !entry_matches(rest[i], ext) by {
                assert(rest[i] == entries[i + 1]);
                assert(!entry_matches(entries[i + 1], ext));
            }
            assert(first_match_spec(rest, ext) is None);
        }
        match first_match_spec(entries, ext) {
            Option::None => {
            },
            Option::Some(p) => {
                let i = choose|i: int|
                    0 <= i < rest.len() && entry_matches(#[trigger] rest[i], ext) && p
                        == rest[i].path@ && (forall|j: int|
                        0 <= j < i ==> !entry_matches(#[trigger] rest[j], ext));
                assert(entry_matches(entries[i + 1], ext));
                assert(p == entries[i + 1].path@);
                assert forall|j: int| 0 <= j < i + 1 implies !entry_matches(entries[j], ext) by {
                    if j > 0 {
                        assert(!entry_matches(rest[j - 1], ext));
                        assert(rest[j - 1] == entries[j]);
                    }
                }
            },
        }
    }
}

proof fn lemma_first_match_step(entries: Seq<DirEntry>, ext: Seq<char>, i: int)
    requires
        0 <= i < entries.len(),
        !entry_matches(entries[i], ext),
    ensures
        first_match_spec(entries.skip(i), ext) == first_match_spec(entries.skip(i + 1), ext),
{
    assert(entries.skip(i).len() > 0);
    assert(entries.skip(i)[0] == entries[i]);
    assert(entries.skip(i).drop_first() =~= entries.skip(i + 1));
}

/// The path of the first file in the walked tree whose extension matches the
/// sought one, or nothing when no file matches. Traversal order is the order
/// of the entries, and the first match wins.
pub fn find_first_with_extension(entries: &Vec<DirEntry>, ext: &str) -> (r: Option<String>)
    ensures
        r matches Some(p) ==> first_match_spec(entries@, ext@) == Some(p@),
        r is None ==> first_match_spec(entries@, ext@) is None,
{
    proof {
        assert(entries@.skip(0) =~= entries@);
    }
    let n = entries.len();
    let mut i: usize = 0;
    while i < n
        invariant
            n == entries@.len(),
            0 <= i <= n,
            first_match_spec(entries@, ext@) == first_match_spec(
                entries@.skip(i as int),
                ext@,
            ),
        decreases n - i,
    {
        let e = &entries[i];
        if e.is_file && path_has_extension(e.path.as_str(), ext) {
            proof {
                assert(entries@.skip(i as int)[0] == entries@[i as int]);
            }
            return Some(e.path.clone());
        }
        proof {
            lemma_first_match_step(entries@, ext@, i as int);
        }
        i += 1;
    }
    proof {
        assert(entries@.skip(n as int).len() == 0);
    }
    None
}

} // verus!
