//! Rich-presence activity payloads: what the client publishes about the
//! game being played. The library builds the payloads; delivering them is
//! the surrounding runtime's business.

use vstd::prelude::*;
use vstd::string::StringExecFns;

verus! {

/// What identifies the game being played in presence payloads.
pub struct GameInfo {
    pub title: String,
    pub family: String,
}

/// The images and captions of an activity.
pub struct ActivityAssets {
    pub small_image: Option<String>,
    pub small_text: Option<String>,
    pub large_image: Option<String>,
    pub large_text: Option<String>,
}

/// The party an activity advertises.
pub struct ActivityParty {
    pub id: Option<String>,
    pub size: Option<(u32, u32)>,
}

/// The timestamps an activity advertises.
pub struct ActivityTimestamps {
    pub start: Option<u64>,
    pub end: Option<u64>,
}

/// The join secrets an activity carries.
pub struct ActivitySecrets {
    pub join: Option<String>,
}

/// One rich-presence activity.
pub struct Activity {
    pub details: Option<String>,
    pub state: Option<String>,
    pub assets: Option<ActivityAssets>,
    pub party: Option<ActivityParty>,
    pub timestamps: Option<ActivityTimestamps>,
    pub secrets: Option<ActivitySecrets>,
}

/// The base activity every presence builds on: the game's title as the
/// details line, the client logo as the small image, and the game's family
/// and title as the large image and caption.
pub fn make_base_activity(game_info: Option<GameInfo>) -> (a: Activity)
    ensures
        a.state is None,
        a.party is None,
        a.timestamps is None,
        a.secrets is None,
        a.assets matches Some(assets) && {
            &&& assets.small_image matches Some(s) && s@ == "logo"@
            &&& assets.small_text matches Some(s) && s@ == "Tango"@
        },
        game_info matches Some(gi) ==> {
            &&& a.details matches Some(t) && t@ == gi.title@
            &&& a.assets matches Some(assets) && {
                &&& assets.large_image matches Some(s) && s@ == gi.family@
                &&& assets.large_text matches Some(s) && s@ == gi.title@
            }
        },
        game_info is None ==> {
            &&& a.details is None
            &&& a.assets matches Some(assets) && assets.large_image is None && assets.large_text
                is None
        },
{
    let (details, large_image, large_text) = match &game_info {
        Some(gi) => (Some(gi.title.clone()), Some(gi.family.clone()), Some(gi.title.clone())),
        None => (None, None, None),
    };
    Activity {
        details,
        state: None,
        assets: Some(
            ActivityAssets {
                small_image: Some("logo".to_owned()),
                small_text: Some("Tango".to_owned()),
                large_image,
                large_text,
            },
        ),
        party: None,
        timestamps: None,
        secrets: None,
    }
}


/// What presence shows for a game: the localized title, with the patch
/// name and version appended when one is applied, and the game's family.
pub fn make_game_info(localized_title: String, family: String, patch: Option<(&str, &str)>) -> (gi: GameInfo)
    ensures
        gi.family@ == family@,
        patch is None ==> gi.title@ == localized_title@,
        patch matches Some(p) ==> gi.title@ == localized_title@ + " + "@ + p.0@ + " v"@ + p.1@,
{
    let mut title = localized_title;
    match patch {
        Some((patch_name, patch_version)) => {
            title.append(" + ");
            title.append(patch_name);
            title.append(" v");
            title.append(patch_version);
        },
        None => {},
    }
    GameInfo { title, family }
}

/// The party identifier an activity advertises for a link code.
fn party_id(link_code: &str) -> (r: String)
    ensures
        r@ == "party:"@ + link_code@,
{
    let mut s = String::from_str("party:");
    s.append(link_code);
    s
}

/// The activity shown while waiting for an opponent under a link code: the
/// caller's localized caption, a joinable party of one, and the link code
/// as the join secret.
pub fn make_looking_activity(link_code: &str, state_text: String, game_info: Option<GameInfo>) -> (a: Activity)
    ensures
        a.state matches Some(st) && st@ == state_text@,
        a.secrets matches Some(sec) && (sec.join matches Some(j) && j@ == link_code@),
        a.party matches Some(p) && (p.id matches Some(id) && id@ == "party:"@ + link_code@)
            && p.size == Some((1u32, 2u32)),
        a.timestamps is None,
        a.assets is Some,
{
    let base = make_base_activity(game_info);
    Activity {
        state: Some(state_text),
        secrets: Some(ActivitySecrets { join: Some(String::from_str(link_code)) }),
        party: Some(ActivityParty { id: Some(party_id(link_code)), size: Some((1, 2)) }),
        ..base
    }
}

/// The activity shown during unlinked play: the caller's localized caption
/// and the moment play started, in milliseconds since the epoch.
pub fn make_single_player_activity(start_millis: Option<u64>, state_text: String, game_info: Option<GameInfo>) -> (a: Activity)
    ensures
        a.state matches Some(st) && st@ == state_text@,
        a.timestamps matches Some(t) && t.start == start_millis && t.end is None,
        a.party is None,
        a.secrets is None,
        a.assets is Some,
{
    let base = make_base_activity(game_info);
    Activity {
        state: Some(state_text),
        timestamps: Some(ActivityTimestamps { start: start_millis, end: None }),
        ..base
    }
}

/// The activity shown once both seats of the party are filled.
pub fn make_in_lobby_activity(link_code: &str, state_text: String, game_info: Option<GameInfo>) -> (a: Activity)
    ensures
        a.state matches Some(st) && st@ == state_text@,
        a.party matches Some(p) && (p.id matches Some(id) && id@ == "party:"@ + link_code@)
            && p.size == Some((2u32, 2u32)),
        a.timestamps is None,
        a.secrets is None,
        a.assets is Some,
{
    let base = make_base_activity(game_info);
    Activity {
        state: Some(state_text),
        party: Some(ActivityParty { id: Some(party_id(link_code)), size: Some((2, 2)) }),
        ..base
    }
}

/// The activity shown while a match runs: the full party and the moment it
/// started.
pub fn make_in_progress_activity(link_code: &str, start_millis: Option<u64>, state_text: String, game_info: Option<GameInfo>) -> (a: Activity)
    ensures
        a.state matches Some(st) && st@ == state_text@,
        a.party matches Some(p) && (p.id matches Some(id) && id@ == "party:"@ + link_code@)
            && p.size == Some((2u32, 2u32)),
        a.timestamps matches Some(t) && t.start == start_millis && t.end is None,
        a.secrets is None,
        a.assets is Some,
{
    let base = make_base_activity(game_info);
    Activity {
        state: Some(state_text),
        party: Some(ActivityParty { id: Some(party_id(link_code)), size: Some((2, 2)) }),
        timestamps: Some(ActivityTimestamps { start: start_millis, end: None }),
        ..base
    }
}


} // verus!
