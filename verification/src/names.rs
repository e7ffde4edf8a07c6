use vstd::prelude::*;
use crate::text::{last_index_of, lemma_last_index_of, find_last, str_eq};

verus! {

// Path texts in this library use '/' as the separator, and the part after the
// last separator is the file name. An extension is the part of the file name
// after its last '.', provided that dot is embedded (not the first character);
// matching on extensions is exact and case-sensitive.

/// The file name of a path text: everything after the last '/'.
pub open spec fn file_name_spec(p: Seq<char>) -> Seq<char> {
    p.subrange(last_index_of(p, '/') + 1, p.len() as int)
}

/// The extension of a file name: the part after the last embedded '.', or
/// nothing when the name has no dot or only a leading one.
pub open spec fn extension_spec(name: Seq<char>) -> Option<Seq<char>> {
    let i = last_index_of(name, '.');
    if i <= 0 {
        None
    } else {
        Some(name.subrange(i + 1, name.len() as int))
    }
}

/// The extension of the file name of a path text.
pub open spec fn path_extension_spec(p: Seq<char>) -> Option<Seq<char>> {
    extension_spec(file_name_spec(p))
}

/// The stem of a file name: the part before the last embedded '.', or the
/// whole name when it has no dot or only a leading one.
pub open spec fn file_stem_spec(name: Seq<char>) -> Seq<char> {
    let i = last_index_of(name, '.');
    if i <= 0 {
        name
    } else {
        name.subrange(0, i)
    }
}

/// The file name of a path text.
pub fn file_name_of<'a>(p: &'a str) -> (r: &'a str)
    ensures
        r@ == file_name_spec(p@),
{
    proof {
        lemma_last_index_of(p@, '/');
    }
    let n = p.unicode_len();
    match find_last(p, '/') {
        Some(i) => p.substring_char(i + 1, n),
        None => {
            proof {
                assert(p@.subrange(0, p@.len() as int) =~= p@);
            }
            p
        },
    }
}

/// The extension of the file name of a path text, if it has one.
pub fn path_extension_of<'a>(p: &'a str) -> (r: Option<&'a str>)
    ensures
        r matches Some(e) ==> path_extension_spec(p@) == Some(e@),
        r is None ==> path_extension_spec(p@) is None,
{
    let name = file_name_of(p);
    proof {
        lemma_last_index_of(name@, '.');
    }
    let n = name.unicode_len();
    match find_last(name, '.') {
        Some(i) => {
            if i == 0 {
                None
            } else {
                Some(name.substring_char(i + 1, n))
            }
        },
        None => None,
    }
}

/// Whether the path's file name carries exactly the sought extension.
pub fn path_has_extension(p: &str, ext: &str) -> (r: bool)
    ensures
        r == (path_extension_spec(p@) == Some(ext@)),
{
    match path_extension_of(p) {
        Some(e) => str_eq(e, ext),
        None => false,
    }
}

/// The stem of a file name.
pub fn file_stem_of<'a>(name: &'a str) -> (r: &'a str)
    ensures
        r@ == file_stem_spec(name@),
{
    proof {
        lemma_last_index_of(name@, '.');
    }
    match find_last(name, '.') {
        Some(i) => {
            if i == 0 {
                name
            } else {
                name.substring_char(0, i)
            }
        },
        None => name,
    }
}

} // verus!
