use guild_matches::classify::{classify, partition};
use guild_matches::label::Outcome;
use guild_matches::validate::ValidPlayer;

fn member(name: &str, is_radiant: bool, is_victory: bool) -> ValidPlayer {
    ValidPlayer {
        is_radiant,
        is_victory,
        kills: 1,
        deaths: 2,
        assists: 3,
        hero_id: 5,
        imp: None,
        name: String::from(name),
    }
}

#[test]
fn one_winner_is_a_victory() {
    assert_eq!(classify(&vec![member("a", true, true)]), Outcome::Victory);
}

#[test]
fn one_loser_is_a_defeat() {
    assert_eq!(classify(&vec![member("a", true, false)]), Outcome::Defeat);
}

#[test]
fn no_player_is_a_cancelled_match() {
    assert_eq!(classify(&vec![]), Outcome::Cancelled);
}

#[test]
fn winner_and_loser_are_a_split() {
    let players = vec![member("a", true, true), member("b", true, false)];
    assert_eq!(classify(&players), Outcome::Split);
}

#[test]
fn outcome_does_not_depend_on_order_or_number() {
    let winners = vec![member("a", true, true), member("b", false, true), member("c", true, true)];
    assert_eq!(classify(&winners), Outcome::Victory);
    let losers = vec![member("a", true, false), member("b", false, false)];
    assert_eq!(classify(&losers), Outcome::Defeat);
    let late_loser =
        vec![member("a", true, true), member("b", true, true), member("c", true, false)];
    assert_eq!(classify(&late_loser), Outcome::Split);
    let late_winner =
        vec![member("a", true, false), member("b", true, false), member("c", true, true)];
    assert_eq!(classify(&late_winner), Outcome::Split);
}

#[test]
fn sides_keep_the_order_of_the_list() {
    let players =
        vec![member("first", true, true), member("second", false, true), member("third", true, true)];
    let (radiant, dire) = partition(&players);
    let radiant: Vec<&str> = radiant.iter().map(|p| p.name.as_str()).collect();
    let dire: Vec<&str> = dire.iter().map(|p| p.name.as_str()).collect();
    assert_eq!(radiant, vec!["first", "third"]);
    assert_eq!(dire, vec!["second"]);
}

#[test]
fn sides_of_no_players_are_empty() {
    let players = vec![];
    let (radiant, dire) = partition(&players);
    assert!(radiant.is_empty());
    assert!(dire.is_empty());
}

#[test]
fn one_side_may_hold_everyone() {
    let players = vec![member("a", false, true), member("b", false, true)];
    let (radiant, dire) = partition(&players);
    assert!(radiant.is_empty());
    assert_eq!(dire.len(), 2);
    assert_eq!(dire[0].name, "a");
    assert_eq!(dire[1].name, "b");
}

#[test]
fn sides_cover_the_list() {
    let players = vec![
        member("a", true, true),
        member("b", false, false),
        member("c", false, true),
        member("d", true, false),
        member("e", false, true),
    ];
    let (radiant, dire) = partition(&players);
    assert_eq!(radiant.len() + dire.len(), players.len());
    assert!(radiant.iter().all(|p| p.is_radiant));
    assert!(dire.iter().all(|p| !p.is_radiant));
}

#[test]
fn split_result_does_not_disturb_the_sides() {
    let players = vec![member("a", true, true), member("b", false, false), member("c", true, false)];
    assert_eq!(classify(&players), Outcome::Split);
    let (radiant, dire) = partition(&players);
    assert_eq!(radiant.len(), 2);
    assert_eq!(dire.len(), 1);
}
