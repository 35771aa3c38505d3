//! Failures of a scan cycle.

use vstd::prelude::*;
use crate::stratz::StratzError;

verus! {

/// The field whose absence makes a record unusable.
#[derive(Clone, Copy, Debug, PartialEq, Eq, Structural)]
pub enum MissingField {
    /// The response carries no data.
    Data,
    /// The data names no guild.
    Guild,
    GuildId,
    GuildName,
    GuildLogo,
    /// The guild comes without its list of matches.
    Matches,
    MatchId,
    LobbyType,
    GameMode,
    Duration,
    /// The end time is absent, or the calendar has no date for it.
    EndTime,
    /// The match comes without its list of players.
    Players,
    /// An entry of the list of players is empty.
    Player,
    IsRadiant,
    IsVictory,
    Kills,
    Deaths,
    Assists,
    SteamAccount,
    SteamName,
    Hero,
    HeroId,
}

/// Why a scan cycle was aborted.
#[derive(Clone, Copy, Debug, PartialEq, Eq, Structural)]
pub enum RefreshError {
    /// The feed could not be fetched.
    Stratz(StratzError),
    /// The feed reported errors of its own, or lacks a required field.
    Data,
    /// A notification could not be delivered.
    Discord,
}

} // verus!
