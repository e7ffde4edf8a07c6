use brainsurf::errors::InstallError;
use brainsurf::names::{file_name_of, file_stem_of, path_extension_of, path_has_extension};
use brainsurf::paths::{archive_path_for, backup_path_for, extraction_dir_for, join_path,
    staging_dir_for};
use brainsurf::reference::{mod_id_from_reference, profile_page_url, reference_for_mod,
    resolve_listed_reference, subfeed_url};
use brainsurf::text::{find_last, i32_to_decimal, is_digit_text, str_eq, u64_to_decimal};

#[test]
fn decimal_renderings() {
    assert_eq!(i32_to_decimal(0).as_str(), "0");
    assert_eq!(i32_to_decimal(615376).as_str(), "615376");
    assert_eq!(i32_to_decimal(-42).as_str(), "-42");
    assert_eq!(i32_to_decimal(i32::MIN).as_str(), "-2147483648");
    assert_eq!(i32_to_decimal(i32::MAX).as_str(), "2147483647");
    assert_eq!(u64_to_decimal(10).as_str(), "10");
}

#[test]
fn digit_texts() {
    assert!(is_digit_text("615376"));
    assert!(!is_digit_text("61a376"));
    assert!(!is_digit_text("-42"));
}

#[test]
fn string_equality_is_exact() {
    assert!(str_eq("xdelta", "xdelta"));
    assert!(!str_eq("xdelta", "XDELTA"));
    assert!(!str_eq("xdelta", "xdelt"));
}

#[test]
fn last_occurrence() {
    assert_eq!(find_last("a.b.c", '.'), Some(3));
    assert_eq!(find_last("abc", '.'), None);
    assert_eq!(find_last(".abc", '.'), Some(0));
}

#[test]
fn file_names_and_stems() {
    assert_eq!(file_name_of("./data/download/7/mod/patch.xdelta"), "patch.xdelta");
    assert_eq!(file_name_of("patch.xdelta"), "patch.xdelta");
    assert_eq!(file_stem_of("cool-mod.zip"), "cool-mod");
    assert_eq!(file_stem_of("archive.tar.gz"), "archive.tar");
    assert_eq!(file_stem_of(".bashrc"), ".bashrc");
    assert_eq!(file_stem_of("noext"), "noext");
}

#[test]
fn extensions_are_exact_and_case_sensitive() {
    assert_eq!(path_extension_of("mod/patch.xdelta"), Some("xdelta"));
    assert_eq!(path_extension_of("mod/patch.XDELTA"), Some("XDELTA"));
    assert_eq!(path_extension_of("mod.v1/readme"), None);
    assert_eq!(path_extension_of("mod/.bashrc"), None);
    assert_eq!(path_extension_of("mod/trailing."), Some(""));
    assert!(path_has_extension("mod/patch.xdelta", "xdelta"));
    assert!(!path_has_extension("mod/patch.XDELTA", "xdelta"));
    assert!(!path_has_extension("mod/patch.xdelta", "XDELTA"));
}

#[test]
fn staging_layout_paths() {
    assert_eq!(staging_dir_for(615376).as_str(), "./data/download/615376");
    assert_eq!(join_path("a/b", "c.txt").as_str(), "a/b/c.txt");
    assert_eq!(
        archive_path_for(615376, "cool-mod.zip").as_str(),
        "./data/download/615376/cool-mod.zip"
    );
    assert_eq!(
        extraction_dir_for(615376, "cool-mod.zip").as_str(),
        "./data/download/615376/cool-mod"
    );
    assert_eq!(backup_path_for("data.win").as_str(), "data.win.bak");
}

#[test]
fn endpoint_addresses() {
    assert_eq!(
        profile_page_url("615376").as_str(),
        "https://gamebanana.com/apiv11/Mod/615376/ProfilePage"
    );
    assert_eq!(
        reference_for_mod(615376).as_str(),
        "https://gamebanana.com/mods/615376"
    );
    assert_eq!(
        subfeed_url().as_str(),
        "https://gamebanana.com/apiv11/Game/21841/Subfeed?_nPage=1&_sSort=new"
    );
}

#[test]
fn bare_identifier_resolves() {
    assert_eq!(mod_id_from_reference("615376").unwrap().as_str(), "615376");
}

#[test]
fn page_address_resolves_to_trailing_segment() {
    assert_eq!(
        mod_id_from_reference("https://gamebanana.com/mods/615376").unwrap().as_str(),
        "615376"
    );
    assert_eq!(
        mod_id_from_reference("https://gamebanana.com/mods/games/615376").unwrap().as_str(),
        "615376"
    );
}

#[test]
fn malformed_references_are_rejected() {
    assert_eq!(mod_id_from_reference("not a url"), Err(InstallError::Resolution));
    assert_eq!(mod_id_from_reference(""), Err(InstallError::Resolution));
    assert_eq!(
        mod_id_from_reference("https://gamebanana.com"),
        Err(InstallError::Resolution)
    );
}

#[test]
fn listed_mod_is_resolvable() {
    assert_eq!(resolve_listed_reference(615376).as_str(), "615376");
    assert_eq!(resolve_listed_reference(0).as_str(), "0");
}

#[test]
fn error_descriptions() {
    assert_eq!(InstallError::Network.describe(), "a remote call failed");
    assert_eq!(
        InstallError::NotFound.describe(),
        "no patch file with the sought extension was found"
    );
}
