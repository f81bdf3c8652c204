//! Links into the game's static-data image services.  The patch string
//! these URLs embed is fetched once per run by the caller and passed in.

use vstd::prelude::*;

verus! {

use crate::text::{spec_decimal, u64_to_string};

/// The URL of a summoner's profile icon on the current patch.
pub fn profile_icon_url(patch: &str, profile_icon_id: i32) -> (r: String)
    requires
        profile_icon_id >= 0,
    ensures
        r@ == "https://cdn.communitydragon.org/"@ + patch@ + "/profile-icon/"@ + spec_decimal(
            profile_icon_id as nat,
        ),
{
    let mut s = "https://cdn.communitydragon.org/".to_owned();
    s.append(patch);
    s.append("/profile-icon/");
    let num = u64_to_string(profile_icon_id as u64);
    s.append(num.as_str());
    s
}

/// The URL of a champion's icon on the current patch.
pub fn champion_icon_url(patch: &str, champion: &str) -> (r: String)
    ensures
        r@ == "http://ddragon.leagueoflegends.com/cdn/"@ + patch@ + "/img/champion/"@ + champion@
            + ".png"@,
{
    let mut s = "http://ddragon.leagueoflegends.com/cdn/".to_owned();
    s.append(patch);
    s.append("/img/champion/");
    s.append(champion);
    s.append(".png");
    s
}

} // verus!
