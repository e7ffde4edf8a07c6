use vstd::prelude::*;
use crate::errors::InstallError;
use crate::text::{dec_rep_int, i32_to_decimal, is_digit, is_digit_seq, is_digit_text,
    lemma_dec_rep_digits};

verus! {

/// The metadata endpoint for one mod's profile page, keyed by its identifier.
pub open spec fn profile_page_url_spec(id_text: Seq<char>) -> Seq<char> {
    "https://gamebanana.com/apiv11/Mod/"@ + id_text + "/ProfilePage"@
}

/// The public page address of one mod on the hosting service.
pub open spec fn mod_page_url_spec(id_text: Seq<char>) -> Seq<char> {
    "https://gamebanana.com/mods/"@ + id_text
}

/// The listing endpoint: the newest submissions for the one target game.
pub open spec fn subfeed_url_spec() -> Seq<char> {
    "https://gamebanana.com/apiv11/Game/21841/Subfeed?_nPage=1&_sSort=new"@
}

/// The metadata endpoint for one mod's profile page.
pub fn profile_page_url(id_text: &str) -> (r: String)
    ensures
        r@ == profile_page_url_spec(id_text@),
{
    let s = String::from_str("https://gamebanana.com/apiv11/Mod/");
    let s = s.concat(id_text);
    s.concat("/ProfilePage")
}

/// The public page address under which a listed mod is shown.
pub fn reference_for_mod(id: i32) -> (r: String)
    ensures
        r@ == mod_page_url_spec(dec_rep_int(id as int)),
{
    let s = String::from_str("https://gamebanana.com/mods/");
    let id_text = i32_to_decimal(id);
    s.concat(id_text.as_str())
}

/// The listing endpoint for the one target game.
pub fn subfeed_url() -> (r: String)
    ensures
        r@ == subfeed_url_spec(),
{
    String::from_str("https://gamebanana.com/apiv11/Game/21841/Subfeed?_nPage=1&_sSort=new")
}

/// The trailing path segment that the URL parser gives a text, when the text
/// parses as an absolute URL whose path is made of segments.
pub uninterp spec fn url_trailing_segment_of(s: Seq<char>) -> Option<Seq<char>>;

/// Relies on url::Url::parse and url::Url::path_segments: parsing is a pure
/// function of the text alone, and on an already-normal https address whose
/// path is plain segments -- such as a mod page address built here, whose
/// trailing segment is decimal digits -- the parser keeps the path as
/// written, so the trailing segment comes back unchanged.
#[verifier::external_body]
fn url_trailing_segment(reference: &str) -> (r: Option<String>)
    ensures
        r matches Some(seg) ==> url_trailing_segment_of(reference@) == Some(seg@),
        r is None ==> url_trailing_segment_of(reference@) is None,
        (match r {
            Some(seg) => forall|d: Seq<char>|
                is_digit_seq(d) && d.len() > 0 && reference@ == #[trigger] mod_page_url_spec(d)
                    ==> seg@ == d,
            None => forall|d: Seq<char>|
                !(is_digit_seq(d) && d.len() > 0 && reference@ == #[trigger] mod_page_url_spec(
                    d,
                )),
        }),
{
    match url::Url::parse(reference) {
        Ok(u) => match u.path_segments() {
            Some(segments) => segments.last().map(|s| s.to_string()),
            None => None,
        },
        Err(_) => None,
    }
}

/// The identifier a mod reference names: the reference itself when it is a
/// bare numeric identifier, else the non-empty trailing path segment of the
/// reference read as a page address, when it has one.
pub open spec fn reference_id_spec(s: Seq<char>) -> Option<Seq<char>> {
    if is_digit_seq(s) && s.len() > 0 {
        Some(s)
    } else {
        match url_trailing_segment_of(s) {
            Some(seg) => if seg.len() > 0 {
                Some(seg)
            } else {
                None
            },
            None => None,
        }
    }
}

/// Resolves a mod reference -- a bare numeric identifier, or a remote page
/// address whose trailing path segment is the identifier -- to the
/// identifier text, failing with the resolution error exactly when the
/// reference has neither shape. A page address built by `reference_for_mod`
/// always resolves back to that mod's identifier text.
pub fn mod_id_from_reference(reference: &str) -> (r: Result<String, InstallError>)
    ensures
        r matches Ok(id) ==> reference_id_spec(reference@) == Some(id@),
        reference_id_spec(reference@) matches Some(id) ==> r matches Ok(rid) && rid@ == id,
        r matches Err(e) ==> e == InstallError::Resolution && reference_id_spec(
            reference@,
        ) is None,
        forall|d: Seq<char>|
            is_digit_seq(d) && d.len() > 0 && reference@ == #[trigger] mod_page_url_spec(d)
                ==> (r matches Ok(id) && id@ == d),
{
    let n = reference.unicode_len();
    if n > 0 && is_digit_text(reference) {
        proof {
            reveal_strlit("https://gamebanana.com/mods/");
            assert forall|d: Seq<char>|
                is_digit_seq(d) && d.len() > 0 && reference@ == mod_page_url_spec(d)
                    implies reference@ == d by {
                assert(mod_page_url_spec(d)[0] == 'h');
                assert(is_digit(reference@[0]));
            };
        }
        Ok(String::from_str(reference))
    } else {
        match url_trailing_segment(reference) {
            Some(seg) => {
                if seg.as_str().unicode_len() > 0 {
                    Ok(seg)
                } else {
                    Err(InstallError::Resolution)
                }
            },
            None => Err(InstallError::Resolution),
        }
    }
}

/// A mod returned by the listing is independently resolvable by its
/// identifier: the page reference built for it resolves back to exactly its
/// identifier text.
pub fn resolve_listed_reference(id: i32) -> (r: String)
    requires
        id >= 0,
    ensures
        r@ == dec_rep_int(id as int),
{
    let reference = reference_for_mod(id);
    proof {
        lemma_dec_rep_digits(id as nat);
    }
    match mod_id_from_reference(reference.as_str()) {
        Ok(id_text) => id_text,
        Err(_) => {
            proof {
                assert(false);
            }
            String::new()
        },
    }
}

} // verus!
