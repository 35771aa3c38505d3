//! What a match's players tell of its outcome, and who stood on which side.

use vstd::prelude::*;
use crate::label::Outcome;
use crate::validate::{player_views, PlayerView, ValidPlayer};

verus! {

/// Whether some player is recorded with the result `won`.
pub open spec fn some_result_is(players: Seq<PlayerView>, won: bool) -> bool {
    exists|i: int| 0 <= i < players.len() && (#[trigger] players[i]).is_victory == won
}

/// The outcome that a list of players tells of: a win if wins are all that is recorded,
/// a loss if losses are, a split if both occur, and a cancelled match if neither does.
pub open spec fn outcome_of(players: Seq<PlayerView>) -> Outcome {
    let won = some_result_is(players, true);
    let lost = some_result_is(players, false);
    if won && lost {
        Outcome::Split
    } else if won {
        Outcome::Victory
    } else if lost {
        Outcome::Defeat
    } else {
        Outcome::Cancelled
    }
}

/// The test for standing on the side `radiant`.
pub open spec fn on_side(radiant: bool) -> spec_fn(PlayerView) -> bool {
    |p: PlayerView| p.is_radiant == radiant
}

/// The players of one side, in the order in which the list has them.
pub open spec fn side_of(players: Seq<PlayerView>, radiant: bool) -> Seq<PlayerView> {
    players.filter(on_side(radiant))
}

/// What each of a list of borrowed players' records says.
pub open spec fn borrowed_views(players: Seq<&ValidPlayer>) -> Seq<PlayerView> {
    players.map_values(|p: &ValidPlayer| p@)
}

/// Every player of a list stands on exactly one side, and each side keeps the order of
/// the list: a player of a side is a player of the list.
pub proof fn lemma_sides_cover(players: Seq<PlayerView>)
    ensures
        side_of(players, true).len() + side_of(players, false).len() == players.len(),
        forall|i: int|
            0 <= i < side_of(players, true).len() ==> (#[trigger] side_of(
                players,
                true,
            )[i]).is_radiant && players.contains(side_of(players, true)[i]),
        forall|i: int|
            0 <= i < side_of(players, false).len() ==> !(#[trigger] side_of(
                players,
                false,
            )[i]).is_radiant && players.contains(side_of(players, false)[i]),
    decreases players.len(),
{
    reveal(Seq::filter);
    if players.len() > 0 {
        lemma_sides_cover(players.drop_last());
    }
}

/// Reads the outcome of a match off its players' records. Every record is looked at.
pub fn classify(players: &Vec<ValidPlayer>) -> (outcome: Outcome)
    ensures
        outcome == outcome_of(player_views(players@)),
{
    let ghost views = player_views(players@);
    let mut is_victory = false;
    let mut is_defeat = false;
    let mut i: usize = 0;
    while i < players.len()
        invariant
            i <= players.len(),
            views == player_views(players@),
            is_victory <==> exists|k: int| 0 <= k < i && (#[trigger] views[k]).is_victory == true,
            is_defeat <==> exists|k: int| 0 <= k < i && (#[trigger] views[k]).is_victory == false,
        decreases players.len() - i,
    {
        assert(views[i as int].is_victory == players[i as int].is_victory);
        if players[i].is_victory {
            is_victory = true;
        } else {
            is_defeat = true;
        }
        i += 1;
    }
    if is_victory && is_defeat {
        Outcome::Split
    } else if is_victory {
        Outcome::Victory
    } else if is_defeat {
        Outcome::Defeat
    } else {
        Outcome::Cancelled
    }
}

/// Parts the players of a match into its two sides, the radiant side first. Within a
/// side the players keep the order of the list.
pub fn partition<'a>(players: &'a Vec<ValidPlayer>) -> (sides: (
    Vec<&'a ValidPlayer>,
    Vec<&'a ValidPlayer>,
))
    ensures
        borrowed_views(sides.0@) == side_of(player_views(players@), true),
        borrowed_views(sides.1@) == side_of(player_views(players@), false),
{
    let mut radiant: Vec<&'a ValidPlayer> = Vec::new();
    let mut dire: Vec<&'a ValidPlayer> = Vec::new();
    let mut i: usize = 0;
    while i < players.len()
        invariant
            i <= players.len(),
            borrowed_views(radiant@) == side_of(player_views(players@.take(i as int)), true),
            borrowed_views(dire@) == side_of(player_views(players@.take(i as int)), false),
        decreases players.len() - i,
    {
        let player = &players[i];
        proof {
            let seen = player_views(players@.take(i as int));
            assert(player_views(players@.take(i + 1)) =~= seen.push(player@));
            Seq::lemma_filter_push(seen, player@, on_side(true));
            Seq::lemma_filter_push(seen, player@, on_side(false));
        }
        if player.is_radiant {
            radiant.push(player);
        } else {
            dire.push(player);
        }
        i += 1;
    }
    assert(players@.take(i as int) =~= players@);
    (radiant, dire)
}

} // verus!
