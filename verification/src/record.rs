//! The match feed as it arrives: every field may be absent.

use vstd::prelude::*;
use crate::label::{GameMode, LobbyType};

verus! {

/// The account a player used.
#[derive(Clone, Debug)]
pub struct SteamAccount {
    /// The display name of the account.
    pub name: Option<String>,
}

/// The hero a player picked.
#[derive(Clone, Debug)]
pub struct Hero {
    pub id: Option<i16>,
}

/// One participant's record in a match.
#[derive(Clone, Debug)]
pub struct Player {
    /// Which of the two sides the player was on.
    pub is_radiant: Option<bool>,
    /// Whether the player's side won.
    pub is_victory: Option<bool>,
    pub kills: Option<u8>,
    pub deaths: Option<u8>,
    pub assists: Option<u8>,
    /// A rating of the player's performance. The only field that may be absent in a
    /// complete record.
    pub imp: Option<i16>,
    pub hero: Option<Hero>,
    pub steam_account: Option<SteamAccount>,
}

/// One match of the feed.
#[derive(Clone, Debug)]
pub struct Match {
    /// The feed's number for the match; later matches have larger numbers.
    pub id: Option<i64>,
    pub lobby_type: Option<LobbyType>,
    pub game_mode: Option<GameMode>,
    pub duration_seconds: Option<i64>,
    /// When the match ended, in seconds since the start of 1970 (UTC).
    pub end_date_time: Option<i64>,
    pub players: Option<Vec<Option<Player>>>,
}

/// The guild whose matches are followed.
#[derive(Clone, Debug)]
pub struct Guild {
    pub id: Option<i64>,
    pub name: Option<String>,
    /// The reference under which the guild's logo is stored.
    pub logo: Option<String>,
    /// The guild's latest matches, newest first.
    pub matches: Option<Vec<Option<Match>>>,
}

/// What a response carries when the query was answered.
#[derive(Clone, Debug)]
pub struct ResponseData {
    pub guild: Option<Guild>,
}

/// The answer to one query for a guild's latest matches.
#[derive(Clone, Debug)]
pub struct Response {
    pub data: Option<ResponseData>,
    /// The messages of the errors that the feed reported instead of, or beside, the data.
    pub errors: Option<Vec<String>>,
}

} // verus!
