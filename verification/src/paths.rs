use vstd::prelude::*;
use crate::names::file_stem_spec;
use crate::names::file_stem_of;
use crate::text::{dec_rep_int, i32_to_decimal};

verus! {

// The on-disk staging layout every stage depends on:
//   ./data/download/<mod_id>/                 one mod's staging directory
//   ./data/download/<mod_id>/<archive>        the raw downloaded archive
//   ./data/download/<mod_id>/<archive stem>/  the extraction directory
//   <target>.bak                              the pristine backup, beside the target

/// The staging directory of the mod with the given identifier text.
pub open spec fn staging_dir_spec(id_text: Seq<char>) -> Seq<char> {
    "./data/download/"@ + id_text
}

/// Two path texts joined with a '/' between them.
pub open spec fn join_spec(dir: Seq<char>, name: Seq<char>) -> Seq<char> {
    dir + "/"@ + name
}

/// Where the downloaded archive of a mod is written.
pub open spec fn archive_path_spec(id_text: Seq<char>, filename: Seq<char>) -> Seq<char> {
    join_spec(staging_dir_spec(id_text), filename)
}

/// Where the archive of a mod is extracted: a directory beside the archive,
/// named after the archive's file name stripped of its extension.
pub open spec fn extraction_dir_spec(id_text: Seq<char>, filename: Seq<char>) -> Seq<char> {
    join_spec(staging_dir_spec(id_text), file_stem_spec(filename))
}

/// Where the pristine backup of a target file lives: beside the target,
/// under the target's own name with ".bak" appended.
pub open spec fn backup_path_spec(target: Seq<char>) -> Seq<char> {
    target + ".bak"@
}

/// The backup of a target never shadows the target itself.
pub proof fn lemma_backup_path_differs(target: Seq<char>)
    ensures
        backup_path_spec(target) != target,
{
    reveal_strlit(".bak");
    assert(backup_path_spec(target).len() == target.len() + 4);
}

/// The staging directory path of a mod.
pub fn staging_dir_for(id: i32) -> (r: String)
    ensures
        r@ == staging_dir_spec(dec_rep_int(id as int)),
{
    let s = String::from_str("./data/download/");
    let id_text = i32_to_decimal(id);
    s.concat(id_text.as_str())
}

/// Two path texts joined with a '/' between them.
pub fn join_path(dir: &str, name: &str) -> (r: String)
    ensures
        r@ == join_spec(dir@, name@),
{
    let s = String::from_str(dir);
    let s = s.concat("/");
    s.concat(name)
}

/// The path the downloaded archive of a mod is written to.
pub fn archive_path_for(id: i32, filename: &str) -> (r: String)
    ensures
        r@ == archive_path_spec(dec_rep_int(id as int), filename@),
{
    let dir = staging_dir_for(id);
    join_path(dir.as_str(), filename)
}

/// The directory the archive of a mod is extracted into.
pub fn extraction_dir_for(id: i32, filename: &str) -> (r: String)
    ensures
        r@ == extraction_dir_spec(dec_rep_int(id as int), filename@),
{
    let dir = staging_dir_for(id);
    let stem = file_stem_of(filename);
    join_path(dir.as_str(), stem)
}

/// The path of the pristine backup of a target file.
pub fn backup_path_for(target: &str) -> (r: String)
    ensures
        r@ == backup_path_spec(target@),
{
    let s = String::from_str(target);
    s.concat(".bak")
}

} // verus!
