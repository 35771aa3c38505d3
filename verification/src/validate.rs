//! From records whose fields may be absent to records that are complete.
//!
//! A record is checked as a whole: the first required field found absent, in the order
//! in which the checks below list them, is the one reported, and nothing is produced from
//! the rest.

use vstd::prelude::*;
use crate::error::MissingField;
use crate::instant::{rfc3339_utc, utc_timestamp};
use crate::label::{GameMode, LobbyType};
use crate::record::{Match, Player, Response};

verus! {

/// A player's record with every required field present.
#[derive(Clone, Debug)]
pub struct ValidPlayer {
    pub is_radiant: bool,
    pub is_victory: bool,
    pub kills: u8,
    pub deaths: u8,
    pub assists: u8,
    pub hero_id: i16,
    pub imp: Option<i16>,
    pub name: String,
}

/// What a complete player's record says.
pub struct PlayerView {
    pub is_radiant: bool,
    pub is_victory: bool,
    pub kills: u8,
    pub deaths: u8,
    pub assists: u8,
    pub hero_id: i16,
    pub imp: Option<i16>,
    pub name: Seq<char>,
}

impl View for ValidPlayer {
    type V = PlayerView;

    open spec fn view(&self) -> PlayerView {
        PlayerView {
            is_radiant: self.is_radiant,
            is_victory: self.is_victory,
            kills: self.kills,
            deaths: self.deaths,
            assists: self.assists,
            hero_id: self.hero_id,
            imp: self.imp,
            name: self.name@,
        }
    }
}

/// A match's record with every required field present, its players' records included.
#[derive(Clone, Debug)]
pub struct ValidMatch {
    pub id: i64,
    pub lobby_type: LobbyType,
    pub game_mode: GameMode,
    pub duration_seconds: i64,
    /// The end of the match as RFC 3339 text in UTC.
    pub ended_at: String,
    pub players: Vec<ValidPlayer>,
}

/// What a complete match's record says.
pub struct MatchView {
    pub id: i64,
    pub lobby_type: LobbyType,
    pub game_mode: GameMode,
    pub duration_seconds: i64,
    pub ended_at: Seq<char>,
    pub players: Seq<PlayerView>,
}

/// What each of a list of complete players' records says.
pub open spec fn player_views(players: Seq<ValidPlayer>) -> Seq<PlayerView> {
    players.map_values(|p: ValidPlayer| p@)
}

impl View for ValidMatch {
    type V = MatchView;

    open spec fn view(&self) -> MatchView {
        MatchView {
            id: self.id,
            lobby_type: self.lobby_type,
            game_mode: self.game_mode,
            duration_seconds: self.duration_seconds,
            ended_at: self.ended_at@,
            players: player_views(self.players@),
        }
    }
}

/// The identity of the guild whose matches are followed.
#[derive(Clone, Debug)]
pub struct GuildInfo {
    pub id: i64,
    pub name: String,
    pub logo: String,
}

/// What a guild's identity says.
pub struct GuildView {
    pub id: i64,
    pub name: Seq<char>,
    pub logo: Seq<char>,
}

impl View for GuildInfo {
    type V = GuildView;

    open spec fn view(&self) -> GuildView {
        GuildView { id: self.id, name: self.name@, logo: self.logo@ }
    }
}

/// A response found complete at its top: the guild's identity and its list of matches,
/// newest first, each still to be checked.
#[derive(Clone, Debug)]
pub struct Envelope {
    pub guild: GuildInfo,
    pub matches: Vec<Option<Match>>,
}

/// What a complete response says at its top.
pub struct EnvelopeView {
    pub guild: GuildView,
    pub matches: Seq<Option<Match>>,
}

impl View for Envelope {
    type V = EnvelopeView;

    open spec fn view(&self) -> EnvelopeView {
        EnvelopeView { guild: self.guild@, matches: self.matches@ }
    }
}

/// A player's record, complete, or the first field that it lacks. The order of the
/// checks: side, result, kills, deaths, assists, the account and its name, the hero and
/// its id.
pub open spec fn checked_player(player: Player) -> Result<PlayerView, MissingField> {
    if player.is_radiant is None {
        Err(MissingField::IsRadiant)
    } else if player.is_victory is None {
        Err(MissingField::IsVictory)
    } else if player.kills is None {
        Err(MissingField::Kills)
    } else if player.deaths is None {
        Err(MissingField::Deaths)
    } else if player.assists is None {
        Err(MissingField::Assists)
    } else if player.steam_account is None {
        Err(MissingField::SteamAccount)
    } else if player.steam_account->0.name is None {
        Err(MissingField::SteamName)
    } else if player.hero is None {
        Err(MissingField::Hero)
    } else if player.hero->0.id is None {
        Err(MissingField::HeroId)
    } else {
        Ok(
            PlayerView {
                is_radiant: player.is_radiant->0,
                is_victory: player.is_victory->0,
                kills: player.kills->0,
                deaths: player.deaths->0,
                assists: player.assists->0,
                hero_id: player.hero->0.id->0,
                imp: player.imp,
                name: player.steam_account->0.name->0@,
            },
        )
    }
}

/// One entry of a list of players, complete, or what it lacks: an empty entry lacks the
/// player.
pub open spec fn checked_entry(entry: Option<Player>) -> Result<PlayerView, MissingField> {
    match entry {
        None => Err(MissingField::Player),
        Some(player) => checked_player(player),
    }
}

/// A list of players, each complete and in the order given, or what the first entry that
/// is not complete lacks.
pub open spec fn checked_players(entries: Seq<Option<Player>>) -> Result<
    Seq<PlayerView>,
    MissingField,
>
    decreases entries.len(),
{
    if entries.len() == 0 {
        Ok(Seq::empty())
    } else {
        match checked_players(entries.drop_last()) {
            Err(missing) => Err(missing),
            Ok(front) => match checked_entry(entries.last()) {
                Err(missing) => Err(missing),
                Ok(player) => Ok(front.push(player)),
            },
        }
    }
}

/// A match's record, complete, or the first field that it lacks. The order of the
/// checks: id, lobby type, game mode, duration, end time, the list of players, then each
/// player in turn. An end time for which the calendar has no date counts as absent.
pub open spec fn checked_match(record: Match) -> Result<MatchView, MissingField> {
    if record.id is None {
        Err(MissingField::MatchId)
    } else if record.lobby_type is None {
        Err(MissingField::LobbyType)
    } else if record.game_mode is None {
        Err(MissingField::GameMode)
    } else if record.duration_seconds is None {
        Err(MissingField::Duration)
    } else if record.end_date_time is None || rfc3339_utc(record.end_date_time->0) is None {
        Err(MissingField::EndTime)
    } else if record.players is None {
        Err(MissingField::Players)
    } else {
        match checked_players(record.players->0@) {
            Err(missing) => Err(missing),
            Ok(players) => Ok(
                MatchView {
                    id: record.id->0,
                    lobby_type: record.lobby_type->0,
                    game_mode: record.game_mode->0,
                    duration_seconds: record.duration_seconds->0,
                    ended_at: rfc3339_utc(record.end_date_time->0)->0,
                    players,
                },
            ),
        }
    }
}

/// A response, complete at its top, or the first thing that it lacks. The order of the
/// checks: the data, the guild, its id, its name, its logo, its list of matches.
pub open spec fn checked_envelope(response: Response) -> Result<EnvelopeView, MissingField> {
    if response.data is None {
        Err(MissingField::Data)
    } else if response.data->0.guild is None {
        Err(MissingField::Guild)
    } else {
        let guild = response.data->0.guild->0;
        if guild.id is None {
            Err(MissingField::GuildId)
        } else if guild.name is None {
            Err(MissingField::GuildName)
        } else if guild.logo is None {
            Err(MissingField::GuildLogo)
        } else if guild.matches is None {
            Err(MissingField::Matches)
        } else {
            Ok(
                EnvelopeView {
                    guild: GuildView { id: guild.id->0, name: guild.name->0@, logo: guild.logo->0@ },
                    matches: guild.matches->0@,
                },
            )
        }
    }
}

/// A list of players is complete exactly if each entry is; it then says, entry by entry,
/// what the entries say. Otherwise it lacks what its first incomplete entry lacks.
pub proof fn lemma_checked_players_entrywise(entries: Seq<Option<Player>>)
    ensures
        checked_players(entries) is Ok <==> forall|i: int|
            0 <= i < entries.len() ==> (#[trigger] checked_entry(entries[i])) is Ok,
        checked_players(entries) matches Ok(players) ==> players.len() == entries.len()
            && forall|i: int|
            0 <= i < entries.len() ==> checked_entry(entries[i]) == Ok::<PlayerView, MissingField>(
                #[trigger] players[i],
            ),
        checked_players(entries) matches Err(missing) ==> exists|k: int|
            0 <= k < entries.len() && #[trigger] checked_entry(entries[k]) == Err::<
                PlayerView,
                MissingField,
            >(missing) && forall|i: int| 0 <= i < k ==> (#[trigger] checked_entry(entries[i])) is Ok,
    decreases entries.len(),
{
    if entries.len() > 0 {
        let front = entries.drop_last();
        lemma_checked_players_entrywise(front);
        assert forall|i: int| 0 <= i < front.len() implies front[i] == entries[i] by {}
        match checked_players(front) {
            Err(missing) => {
                let k = choose|k: int|
                    0 <= k < front.len() && #[trigger] checked_entry(front[k]) == Err::<
                        PlayerView,
                        MissingField,
                    >(missing) && forall|i: int|
                        0 <= i < k ==> (#[trigger] checked_entry(front[i])) is Ok;
                assert(checked_entry(entries[k]) == Err::<PlayerView, MissingField>(missing));
            },
            Ok(players) => {
                match checked_entry(entries.last()) {
                    Err(missing) => {
                        assert(checked_entry(entries[entries.len() - 1]) == Err::<
                            PlayerView,
                            MissingField,
                        >(missing));
                    },
                    Ok(player) => {
                        assert(checked_players(entries) == Ok::<Seq<PlayerView>, MissingField>(
                            players.push(player),
                        ));
                    },
                }
            },
        }
    }
}

/// What is found lacking in the front part of a list is found lacking in the whole list.
proof fn lemma_checked_players_front(entries: Seq<Option<Player>>, n: int)
    requires
        0 <= n <= entries.len(),
        checked_players(entries.take(n)) is Err,
    ensures
        checked_players(entries) == checked_players(entries.take(n)),
    decreases entries.len() - n,
{
    if n < entries.len() {
        let longer = entries.take(n + 1);
        assert(longer.drop_last() =~= entries.take(n));
        lemma_checked_players_front(entries, n + 1);
    } else {
        assert(entries.take(n) =~= entries);
    }
}

/// Checks one player's record.
pub fn validate_player(player: &Player) -> (checked: Result<ValidPlayer, MissingField>)
    ensures
        match checked {
            Ok(valid) => checked_player(*player) == Ok::<PlayerView, MissingField>(valid@),
            Err(missing) => checked_player(*player) == Err::<PlayerView, MissingField>(missing),
        },
{
    let is_radiant = match player.is_radiant {
        Some(flag) => flag,
        None => return Err(MissingField::IsRadiant),
    };
    let is_victory = match player.is_victory {
        Some(flag) => flag,
        None => return Err(MissingField::IsVictory),
    };
    let kills = match player.kills {
        Some(count) => count,
        None => return Err(MissingField::Kills),
    };
    let deaths = match player.deaths {
        Some(count) => count,
        None => return Err(MissingField::Deaths),
    };
    let assists = match player.assists {
        Some(count) => count,
        None => return Err(MissingField::Assists),
    };
    let name = match &player.steam_account {
        Some(account) => match &account.name {
            Some(name) => name.clone(),
            None => return Err(MissingField::SteamName),
        },
        None => return Err(MissingField::SteamAccount),
    };
    let hero_id = match &player.hero {
        Some(hero) => match hero.id {
            Some(id) => id,
            None => return Err(MissingField::HeroId),
        },
        None => return Err(MissingField::Hero),
    };
    Ok(
        ValidPlayer {
            is_radiant,
            is_victory,
            kills,
            deaths,
            assists,
            hero_id,
            imp: player.imp,
            name,
        },
    )
}

/// Checks a list of players' records, front to back, and stops at the first that is not
/// complete.
pub fn validate_players(entries: &Vec<Option<Player>>) -> (checked: Result<
    Vec<ValidPlayer>,
    MissingField,
>)
    ensures
        match checked {
            Ok(valid) => checked_players(entries@) == Ok::<Seq<PlayerView>, MissingField>(
                player_views(valid@),
            ),
            Err(missing) => checked_players(entries@) == Err::<Seq<PlayerView>, MissingField>(
                missing,
            ),
        },
{
    let mut valid: Vec<ValidPlayer> = Vec::new();
    let mut i: usize = 0;
    assert(player_views(valid@) =~= Seq::<PlayerView>::empty());
    while i < entries.len()
        invariant
            i <= entries.len(),
            checked_players(entries@.take(i as int)) == Ok::<Seq<PlayerView>, MissingField>(
                player_views(valid@),
            ),
        decreases entries.len() - i,
    {
        let ghost before = valid@;
        assert(entries@.take(i + 1).drop_last() =~= entries@.take(i as int));
        let player = match &entries[i] {
            Some(player) => match validate_player(player) {
                Ok(player) => player,
                Err(missing) => {
                    proof {
                        lemma_checked_players_front(entries@, i + 1);
                    }
                    return Err(missing);
                },
            },
            None => {
                proof {
                    lemma_checked_players_front(entries@, i + 1);
                }
                return Err(MissingField::Player);
            },
        };
        valid.push(player);
        assert(player_views(valid@) =~= player_views(before).push(player@));
        i += 1;
    }
    assert(entries@.take(i as int) =~= entries@);
    Ok(valid)
}

/// Checks one match's record, its players' records included.
pub fn validate_match(record: &Match) -> (checked: Result<ValidMatch, MissingField>)
    ensures
        match checked {
            Ok(valid) => checked_match(*record) == Ok::<MatchView, MissingField>(valid@),
            Err(missing) => checked_match(*record) == Err::<MatchView, MissingField>(missing),
        },
{
    let id = match record.id {
        Some(id) => id,
        None => return Err(MissingField::MatchId),
    };
    let lobby_type = match record.lobby_type {
        Some(lobby_type) => lobby_type,
        None => return Err(MissingField::LobbyType),
    };
    let game_mode = match record.game_mode {
        Some(game_mode) => game_mode,
        None => return Err(MissingField::GameMode),
    };
    let duration_seconds = match record.duration_seconds {
        Some(seconds) => seconds,
        None => return Err(MissingField::Duration),
    };
    let ended_at = match record.end_date_time {
        Some(seconds) => match utc_timestamp(seconds) {
            Some(text) => text,
            None => return Err(MissingField::EndTime),
        },
        None => return Err(MissingField::EndTime),
    };
    let players = match &record.players {
        Some(entries) => match validate_players(entries) {
            Ok(players) => players,
            Err(missing) => return Err(missing),
        },
        None => return Err(MissingField::Players),
    };
    Ok(ValidMatch { id, lobby_type, game_mode, duration_seconds, ended_at, players })
}

/// Checks the top of a response: that it names the guild in full and brings a list of
/// matches. The matches themselves are handed on unchecked.
pub fn validate_envelope(response: Response) -> (checked: Result<Envelope, MissingField>)
    ensures
        match checked {
            Ok(envelope) => checked_envelope(response) == Ok::<EnvelopeView, MissingField>(
                envelope@,
            ),
            Err(missing) => checked_envelope(response) == Err::<EnvelopeView, MissingField>(
                missing,
            ),
        },
{
    let data = match response.data {
        Some(data) => data,
        None => return Err(MissingField::Data),
    };
    let guild = match data.guild {
        Some(guild) => guild,
        None => return Err(MissingField::Guild),
    };
    let id = match guild.id {
        Some(id) => id,
        None => return Err(MissingField::GuildId),
    };
    let name = match guild.name {
        Some(name) => name,
        None => return Err(MissingField::GuildName),
    };
    let logo = match guild.logo {
        Some(logo) => logo,
        None => return Err(MissingField::GuildLogo),
    };
    let matches = match guild.matches {
        Some(matches) => matches,
        None => return Err(MissingField::Matches),
    };
    Ok(Envelope { guild: GuildInfo { id, name, logo }, matches })
}

} // verus!
