//! Audio artifact naming: each synthesized utterance is persisted under a
//! globally unique name in a fixed audio directory. The write itself is
//! plain file I/O and lives with the embedding; this module fixes the name.

use vstd::prelude::*;
use vstd::string::StringExecFns;

verus! {

/// Relies on uuid::Uuid::new_v4 and its hyphenated rendering: whatever
/// value is drawn, the rendering is 36 characters long.
#[verifier::external_body]
fn fresh_uuid() -> (r: String)
    ensures
        r@.len() == 36,
{
    uuid::Uuid::new_v4().to_string()
}

/// The relative path an artifact with the given unique name is stored
/// under: `audio/{uuid}.mp3`.
pub open spec fn artifact_path_spec(uuid: Seq<char>) -> Seq<char> {
    "audio/"@ + uuid + ".mp3"@
}

/// Builds the storage path for one unique artifact name.
pub fn artifact_path(uuid: &str) -> (r: String)
    ensures
        r@ == artifact_path_spec(uuid@),
{
    let mut r = String::from_str("audio/");
    r.append(uuid);
    r.append(".mp3");
    proof {
        assert(r@ =~= artifact_path_spec(uuid@));
    }
    r
}

/// Draws a fresh unique name and returns the path a new artifact is to be
/// written under.
pub fn new_artifact_path() -> (r: String)
    ensures
        exists|u: Seq<char>| u.len() == 36 && r@ == artifact_path_spec(u),
        r@.len() == 46,
        r@.subrange(0, 6) == "audio/"@,
        r@.subrange(42, 46) == ".mp3"@,
{
    let uuid = fresh_uuid();
    let r = artifact_path(uuid.as_str());
    proof {
        reveal_strlit("audio/");
        reveal_strlit(".mp3");
        assert(r@.subrange(0, 6) =~= "audio/"@);
        assert(r@.subrange(42, 46) =~= ".mp3"@);
    }
    r
}

} // verus!
