use steamid_ng::SteamID;
use vstd::prelude::*;

verus! {

/// The 64-bit Steam ID that a textual Steam ID of the bracketed form stands
/// for, if the text is such an ID.
pub uninterp spec fn steam3_id(text: Seq<char>) -> Option<u64>;

/// The number that stands for a textual Steam ID: zero where the text is no
/// such ID.
pub open spec fn steam_id_of(text: Seq<char>) -> u64 {
    match steam3_id(text) {
        Some(id) => id,
        None => 0,
    }
}

/// `SteamID::from_steam3` of steamid_ng, the ID read as a number and the
/// error dropped: the result depends on the text alone.
#[verifier::external_body]
pub(crate) fn steam_id_from_steam3(text: &str) -> (id: Option<u64>)
    ensures
        id == steam3_id(text@),
{
    SteamID::from_steam3(text).ok().map(u64::from)
}

/// The number that stands for a textual Steam ID, zero where the text is no
/// such ID.
pub fn steam_id_or_zero(text: &str) -> (id: u64)
    ensures
        id == steam_id_of(text@),
{
    match steam_id_from_steam3(text) {
        Some(id) => id,
        None => 0,
    }
}

} // verus!
