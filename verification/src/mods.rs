use vstd::prelude::*;

verus! {

/// Who published a mod. Owned by its parent `ModInfo`.
#[derive(Clone, Debug, PartialEq, Eq)]
pub struct Submitter {
    pub name: String,
    /// An opaque display-only reference to the submitter's avatar image.
    pub avatar_url: String,
}

/// Identity and display record for a mod, as the metadata service reports
/// it. Immutable once fetched; equality is structural.
#[derive(Clone, Debug, PartialEq, Eq)]
pub struct ModInfo {
    /// The stable remote identifier; the primary key.
    pub id: i32,
    /// The display name.
    pub name: String,
    pub submitter: Submitter,
    /// Optional rich-text summary.
    pub description: Option<String>,
    /// Optional long-form body.
    pub text: Option<String>,
}

/// One entry of a mod's file listing: the archive to fetch and where from.
#[derive(Clone, Debug, PartialEq, Eq)]
pub struct FileInfo {
    pub filename: String,
    pub download_url: String,
}

/// One entry met while walking a staging tree: its path text, with '/' as
/// the separator, and whether it is a plain file.
#[derive(Clone, Debug, PartialEq, Eq)]
pub struct DirEntry {
    pub path: String,
    pub is_file: bool,
}

} // verus!
