use guild_matches::error::MissingField;
use guild_matches::label::{GameMode, LobbyType};
use guild_matches::record::{Guild, Hero, Match, Player, Response, ResponseData, SteamAccount};
use guild_matches::validate::{
    validate_envelope, validate_match, validate_player, validate_players,
};

fn full_player() -> Player {
    Player {
        is_radiant: Some(true),
        is_victory: Some(false),
        kills: Some(3),
        deaths: Some(4),
        assists: Some(5),
        imp: Some(-7),
        hero: Some(Hero { id: Some(14) }),
        steam_account: Some(SteamAccount { name: Some(String::from("Butcher")) }),
    }
}

fn full_match() -> Match {
    Match {
        id: Some(6500000001),
        lobby_type: Some(LobbyType::Ranked),
        game_mode: Some(GameMode::AllPickRanked),
        duration_seconds: Some(754),
        end_date_time: Some(1648555200),
        players: Some(vec![Some(full_player())]),
    }
}

fn full_response() -> Response {
    Response {
        data: Some(ResponseData {
            guild: Some(Guild {
                id: Some(42),
                name: Some(String::from("Night Owls")),
                logo: Some(String::from("1234567890")),
                matches: Some(vec![Some(full_match()), None]),
            }),
        }),
        errors: None,
    }
}

#[test]
fn complete_player_is_taken_over_field_by_field() {
    let valid = validate_player(&full_player()).unwrap();
    assert!(valid.is_radiant);
    assert!(!valid.is_victory);
    assert_eq!(valid.kills, 3);
    assert_eq!(valid.deaths, 4);
    assert_eq!(valid.assists, 5);
    assert_eq!(valid.hero_id, 14);
    assert_eq!(valid.imp, Some(-7));
    assert_eq!(valid.name, "Butcher");
}

#[test]
fn rating_may_be_absent() {
    let mut player = full_player();
    player.imp = None;
    let valid = validate_player(&player).unwrap();
    assert_eq!(valid.imp, None);
}

#[test]
fn each_missing_player_field_is_named() {
    let mut p = full_player();
    p.is_radiant = None;
    assert_eq!(validate_player(&p).unwrap_err(), MissingField::IsRadiant);
    let mut p = full_player();
    p.is_victory = None;
    assert_eq!(validate_player(&p).unwrap_err(), MissingField::IsVictory);
    let mut p = full_player();
    p.kills = None;
    assert_eq!(validate_player(&p).unwrap_err(), MissingField::Kills);
    let mut p = full_player();
    p.deaths = None;
    assert_eq!(validate_player(&p).unwrap_err(), MissingField::Deaths);
    let mut p = full_player();
    p.assists = None;
    assert_eq!(validate_player(&p).unwrap_err(), MissingField::Assists);
    let mut p = full_player();
    p.steam_account = None;
    assert_eq!(validate_player(&p).unwrap_err(), MissingField::SteamAccount);
    let mut p = full_player();
    p.steam_account = Some(SteamAccount { name: None });
    assert_eq!(validate_player(&p).unwrap_err(), MissingField::SteamName);
    let mut p = full_player();
    p.hero = None;
    assert_eq!(validate_player(&p).unwrap_err(), MissingField::Hero);
    let mut p = full_player();
    p.hero = Some(Hero { id: None });
    assert_eq!(validate_player(&p).unwrap_err(), MissingField::HeroId);
}

#[test]
fn first_missing_player_field_wins() {
    let mut p = full_player();
    p.hero = None;
    p.kills = None;
    p.steam_account = None;
    assert_eq!(validate_player(&p).unwrap_err(), MissingField::Kills);
    p.is_radiant = None;
    assert_eq!(validate_player(&p).unwrap_err(), MissingField::IsRadiant);
}

#[test]
fn player_list_keeps_its_order() {
    let mut second = full_player();
    second.steam_account = Some(SteamAccount { name: Some(String::from("Second")) });
    let mut third = full_player();
    third.steam_account = Some(SteamAccount { name: Some(String::from("Third")) });
    let valid = validate_players(&vec![Some(full_player()), Some(second), Some(third)]).unwrap();
    let names: Vec<&str> = valid.iter().map(|p| p.name.as_str()).collect();
    assert_eq!(names, vec!["Butcher", "Second", "Third"]);
}

#[test]
fn empty_player_list_is_complete() {
    assert!(validate_players(&vec![]).unwrap().is_empty());
}

#[test]
fn empty_player_entry_is_named() {
    let checked = validate_players(&vec![Some(full_player()), None]);
    assert_eq!(checked.unwrap_err(), MissingField::Player);
}

#[test]
fn first_incomplete_player_wins() {
    let mut no_deaths = full_player();
    no_deaths.deaths = None;
    let mut no_kills = full_player();
    no_kills.kills = None;
    let checked = validate_players(&vec![Some(full_player()), Some(no_deaths), Some(no_kills), None]);
    assert_eq!(checked.unwrap_err(), MissingField::Deaths);
}

#[test]
fn complete_match_is_taken_over_field_by_field() {
    let valid = validate_match(&full_match()).unwrap();
    assert_eq!(valid.id, 6500000001);
    assert_eq!(valid.lobby_type, LobbyType::Ranked);
    assert_eq!(valid.game_mode, GameMode::AllPickRanked);
    assert_eq!(valid.duration_seconds, 754);
    assert_eq!(valid.players.len(), 1);
    assert_eq!(valid.players[0].name, "Butcher");
}

#[test]
fn end_time_becomes_a_utc_timestamp() {
    let valid = validate_match(&full_match()).unwrap();
    assert_eq!(valid.ended_at, "2022-03-29T12:00:00+00:00");
    let mut at_epoch = full_match();
    at_epoch.end_date_time = Some(0);
    assert_eq!(validate_match(&at_epoch).unwrap().ended_at, "1970-01-01T00:00:00+00:00");
    let mut before_epoch = full_match();
    before_epoch.end_date_time = Some(-1);
    assert_eq!(validate_match(&before_epoch).unwrap().ended_at, "1969-12-31T23:59:59+00:00");
}

#[test]
fn end_time_without_a_date_counts_as_missing() {
    let mut far = full_match();
    far.end_date_time = Some(i64::MAX);
    assert_eq!(validate_match(&far).unwrap_err(), MissingField::EndTime);
    far.end_date_time = Some(i64::MIN);
    assert_eq!(validate_match(&far).unwrap_err(), MissingField::EndTime);
}

#[test]
fn each_missing_match_field_is_named() {
    let mut m = full_match();
    m.id = None;
    assert_eq!(validate_match(&m).unwrap_err(), MissingField::MatchId);
    let mut m = full_match();
    m.lobby_type = None;
    assert_eq!(validate_match(&m).unwrap_err(), MissingField::LobbyType);
    let mut m = full_match();
    m.game_mode = None;
    assert_eq!(validate_match(&m).unwrap_err(), MissingField::GameMode);
    let mut m = full_match();
    m.duration_seconds = None;
    assert_eq!(validate_match(&m).unwrap_err(), MissingField::Duration);
    let mut m = full_match();
    m.end_date_time = None;
    assert_eq!(validate_match(&m).unwrap_err(), MissingField::EndTime);
    let mut m = full_match();
    m.players = None;
    assert_eq!(validate_match(&m).unwrap_err(), MissingField::Players);
}

#[test]
fn first_missing_match_field_wins() {
    let mut m = full_match();
    m.players = None;
    m.game_mode = None;
    assert_eq!(validate_match(&m).unwrap_err(), MissingField::GameMode);
    m.id = None;
    assert_eq!(validate_match(&m).unwrap_err(), MissingField::MatchId);
}

#[test]
fn incomplete_player_makes_the_match_incomplete() {
    let mut nameless = full_player();
    nameless.steam_account = None;
    let mut m = full_match();
    m.players = Some(vec![Some(full_player()), Some(nameless)]);
    assert_eq!(validate_match(&m).unwrap_err(), MissingField::SteamAccount);
    m.players = Some(vec![None]);
    assert_eq!(validate_match(&m).unwrap_err(), MissingField::Player);
}

#[test]
fn match_fields_are_checked_before_players() {
    let mut nameless = full_player();
    nameless.steam_account = None;
    let mut m = full_match();
    m.players = Some(vec![Some(nameless)]);
    m.end_date_time = None;
    assert_eq!(validate_match(&m).unwrap_err(), MissingField::EndTime);
}

#[test]
fn unknown_categories_are_no_fault() {
    let mut m = full_match();
    m.lobby_type = Some(LobbyType::Other);
    m.game_mode = Some(GameMode::Other);
    let valid = validate_match(&m).unwrap();
    assert_eq!(valid.lobby_type, LobbyType::Other);
    assert_eq!(valid.game_mode, GameMode::Other);
}

#[test]
fn complete_envelope_names_the_guild_and_keeps_the_matches() {
    let envelope = validate_envelope(full_response()).unwrap();
    assert_eq!(envelope.guild.id, 42);
    assert_eq!(envelope.guild.name, "Night Owls");
    assert_eq!(envelope.guild.logo, "1234567890");
    assert_eq!(envelope.matches.len(), 2);
    assert_eq!(envelope.matches[0].as_ref().unwrap().id, Some(6500000001));
    assert!(envelope.matches[1].is_none());
}

#[test]
fn each_missing_envelope_field_is_named() {
    let mut r = full_response();
    r.data = None;
    assert_eq!(validate_envelope(r).unwrap_err(), MissingField::Data);
    let mut r = full_response();
    r.data.as_mut().unwrap().guild = None;
    assert_eq!(validate_envelope(r).unwrap_err(), MissingField::Guild);
    let mut r = full_response();
    r.data.as_mut().unwrap().guild.as_mut().unwrap().id = None;
    assert_eq!(validate_envelope(r).unwrap_err(), MissingField::GuildId);
    let mut r = full_response();
    r.data.as_mut().unwrap().guild.as_mut().unwrap().name = None;
    assert_eq!(validate_envelope(r).unwrap_err(), MissingField::GuildName);
    let mut r = full_response();
    r.data.as_mut().unwrap().guild.as_mut().unwrap().logo = None;
    assert_eq!(validate_envelope(r).unwrap_err(), MissingField::GuildLogo);
    let mut r = full_response();
    r.data.as_mut().unwrap().guild.as_mut().unwrap().matches = None;
    assert_eq!(validate_envelope(r).unwrap_err(), MissingField::Matches);
}

#[test]
fn first_missing_envelope_field_wins() {
    let mut r = full_response();
    {
        let guild = r.data.as_mut().unwrap().guild.as_mut().unwrap();
        guild.matches = None;
        guild.name = None;
    }
    assert_eq!(validate_envelope(r).unwrap_err(), MissingField::GuildName);
}

#[test]
fn envelope_does_not_look_into_the_matches() {
    let mut r = full_response();
    r.data.as_mut().unwrap().guild.as_mut().unwrap().matches = Some(vec![
        None,
        Some(Match {
            id: None,
            lobby_type: None,
            game_mode: None,
            duration_seconds: None,
            end_date_time: None,
            players: None,
        }),
    ]);
    assert_eq!(validate_envelope(r).unwrap().matches.len(), 2);
}
