//! Whole cycles: what a cycle announces, and where it leaves the cursor, when every
//! notification that it hands out is delivered; and what holds of every such cycle.

use vstd::prelude::*;
use crate::error::RefreshError;
use crate::record::Match;
use crate::scan::{cursor_after, scan_from, verdict, Next, Progress, Verdict};
use crate::validate::{checked_match, MatchView};

verus! {

/// The matches that a cycle announces, in the order in which it announces them.
pub open spec fn cycle_announced(
    cursor: i64,
    pending: Seq<Option<Match>>,
    min_players: usize,
) -> Seq<MatchView>
    decreases pending.len(),
{
    if pending.len() == 0 {
        Seq::empty()
    } else {
        match verdict(cursor, pending.last(), min_players) {
            Verdict::Rejected => Seq::empty(),
            Verdict::Seen => cycle_announced(cursor, pending.drop_last(), min_players),
            Verdict::Passed(valid) => cycle_announced(valid.id, pending.drop_last(), min_players),
            Verdict::Announced(valid) => seq![valid] + cycle_announced(
                valid.id,
                pending.drop_last(),
                min_players,
            ),
        }
    }
}

/// Where a cycle leaves the cursor.
pub open spec fn cycle_cursor(cursor: i64, pending: Seq<Option<Match>>, min_players: usize) -> i64
    decreases pending.len(),
{
    if pending.len() == 0 {
        cursor
    } else {
        match verdict(cursor, pending.last(), min_players) {
            Verdict::Rejected => cursor,
            Verdict::Seen => cycle_cursor(cursor, pending.drop_last(), min_players),
            Verdict::Passed(valid) => cycle_cursor(valid.id, pending.drop_last(), min_players),
            Verdict::Announced(valid) => cycle_cursor(valid.id, pending.drop_last(), min_players),
        }
    }
}

/// How a cycle ends: well, or with the error of incomplete data at the first entry that
/// is rejected.
pub open spec fn cycle_result(
    cursor: i64,
    pending: Seq<Option<Match>>,
    min_players: usize,
) -> Result<(), RefreshError>
    decreases pending.len(),
{
    if pending.len() == 0 {
        Ok(())
    } else {
        match verdict(cursor, pending.last(), min_players) {
            Verdict::Rejected => Err(RefreshError::Data),
            Verdict::Seen => cycle_result(cursor, pending.drop_last(), min_players),
            Verdict::Passed(valid) => cycle_result(valid.id, pending.drop_last(), min_players),
            Verdict::Announced(valid) => cycle_result(valid.id, pending.drop_last(), min_players),
        }
    }
}

/// A whole cycle is the run up to its next announcement followed by the whole cycle from
/// there; a run that finishes without an announcement is the end of the cycle.
pub proof fn lemma_cycle_unfolds(cursor: i64, pending: Seq<Option<Match>>, min_players: usize)
    ensures
        ({
            let progress = scan_from(cursor, pending, min_players);
            match progress.next {
                Next::Announce(valid) => {
                    &&& progress.pending.len() < pending.len()
                    &&& cycle_announced(cursor, pending, min_players) == seq![valid]
                        + cycle_announced(progress.cursor, progress.pending, min_players)
                    &&& cycle_cursor(cursor, pending, min_players) == cycle_cursor(
                        progress.cursor,
                        progress.pending,
                        min_players,
                    )
                    &&& cycle_result(cursor, pending, min_players) == cycle_result(
                        progress.cursor,
                        progress.pending,
                        min_players,
                    )
                },
                Next::Finished(result) => {
                    &&& cycle_announced(cursor, pending, min_players) == Seq::<MatchView>::empty()
                    &&& cycle_cursor(cursor, pending, min_players) == progress.cursor
                    &&& cycle_result(cursor, pending, min_players) == result
                },
            }
        }),
    decreases pending.len(),
{
    if pending.len() > 0 {
        match verdict(cursor, pending.last(), min_players) {
            Verdict::Rejected => {},
            Verdict::Seen => {
                lemma_cycle_unfolds(cursor, pending.drop_last(), min_players);
            },
            Verdict::Passed(valid) => {
                lemma_cycle_unfolds(valid.id, pending.drop_last(), min_players);
            },
            Verdict::Announced(valid) => {},
        }
    }
}

/// The cursor never moves back: not over one entry, not over a run up to the next
/// announcement, not over a whole cycle.
pub proof fn lemma_cursor_never_recedes(
    cursor: i64,
    pending: Seq<Option<Match>>,
    min_players: usize,
)
    ensures
        forall|entry: Option<Match>| #[trigger] cursor_after(cursor, entry, min_players) >= cursor,
        scan_from(cursor, pending, min_players).cursor >= cursor,
        cycle_cursor(cursor, pending, min_players) >= cursor,
    decreases pending.len(),
{
    if pending.len() > 0 {
        match verdict(cursor, pending.last(), min_players) {
            Verdict::Rejected => {},
            Verdict::Seen => {
                lemma_cursor_never_recedes(cursor, pending.drop_last(), min_players);
            },
            Verdict::Passed(valid) => {
                lemma_cursor_never_recedes(valid.id, pending.drop_last(), min_players);
            },
            Verdict::Announced(valid) => {
                lemma_cursor_never_recedes(valid.id, pending.drop_last(), min_players);
            },
        }
    }
}

/// Only a match above the cursor is announced, and once a match has been announced no
/// match with its id is announced again, however the cursor has moved on since.
pub proof fn lemma_announced_once(
    cursor: i64,
    entry: Option<Match>,
    later_cursor: i64,
    later_entry: Option<Match>,
    min_players: usize,
)
    requires
        verdict(cursor, entry, min_players) is Announced,
        later_cursor >= cursor_after(cursor, entry, min_players),
        later_entry is Some,
        checked_match(later_entry->0) matches Ok(again) && again.id == verdict(
            cursor,
            entry,
            min_players,
        )->Announced_0.id,
    ensures
        verdict(cursor, entry, min_players)->Announced_0.id > cursor,
        verdict(later_cursor, later_entry, min_players) is Seen,
{
}

/// The matches that a cycle announces all lie above the cursor from which it started, none
/// lies above the cursor at which it ends, and each lies above the one announced before
/// it: no match is announced twice in a cycle.
pub proof fn lemma_announced_ascending(
    cursor: i64,
    pending: Seq<Option<Match>>,
    min_players: usize,
)
    ensures
        forall|i: int|
            0 <= i < cycle_announced(cursor, pending, min_players).len() ==> cursor < (
            #[trigger] cycle_announced(cursor, pending, min_players)[i]).id <= cycle_cursor(
                cursor,
                pending,
                min_players,
            ),
        forall|i: int, j: int|
            0 <= i < j < cycle_announced(cursor, pending, min_players).len() ==> (
            #[trigger] cycle_announced(cursor, pending, min_players)[i]).id < (
            #[trigger] cycle_announced(cursor, pending, min_players)[j]).id,
    decreases pending.len(),
{
    if pending.len() > 0 {
        let rest = pending.drop_last();
        match verdict(cursor, pending.last(), min_players) {
            Verdict::Rejected => {},
            Verdict::Seen => {
                lemma_announced_ascending(cursor, rest, min_players);
            },
            Verdict::Passed(valid) => {
                lemma_announced_ascending(valid.id, rest, min_players);
            },
            Verdict::Announced(valid) => {
                lemma_announced_ascending(valid.id, rest, min_players);
                lemma_cursor_never_recedes(valid.id, rest, min_players);
                assert(cycle_announced(cursor, pending, min_players) == seq![valid]
                    + cycle_announced(valid.id, rest, min_players));
            },
        }
    }
}

/// A cycle that starts where a cycle on the same list has left the cursor announces
/// nothing, leaves the cursor where it is, and ends as the first one did.
pub proof fn lemma_rerun_is_silent(cursor: i64, pending: Seq<Option<Match>>, min_players: usize)
    ensures
        ({
            let settled = cycle_cursor(cursor, pending, min_players);
            &&& cycle_announced(settled, pending, min_players) == Seq::<MatchView>::empty()
            &&& cycle_cursor(settled, pending, min_players) == settled
            &&& cycle_result(settled, pending, min_players) == cycle_result(
                cursor,
                pending,
                min_players,
            )
        }),
    decreases pending.len(),
{
    if pending.len() > 0 {
        let rest = pending.drop_last();
        match verdict(cursor, pending.last(), min_players) {
            Verdict::Rejected => {},
            Verdict::Seen => {
                lemma_rerun_is_silent(cursor, rest, min_players);
                lemma_cursor_never_recedes(cursor, rest, min_players);
            },
            Verdict::Passed(valid) => {
                lemma_rerun_is_silent(valid.id, rest, min_players);
                lemma_cursor_never_recedes(valid.id, rest, min_players);
            },
            Verdict::Announced(valid) => {
                lemma_rerun_is_silent(valid.id, rest, min_players);
                lemma_cursor_never_recedes(valid.id, rest, min_players);
            },
        }
    }
}

/// A new match with too few players is passed over without an error: the cursor moves to
/// its id, and the cycle goes on with the entries that are left.
pub proof fn lemma_short_match_is_passed(
    cursor: i64,
    pending: Seq<Option<Match>>,
    record: Match,
    min_players: usize,
)
    requires
        checked_match(record) matches Ok(valid) && valid.id > cursor && valid.players.len()
            < min_players,
    ensures
        cursor_after(cursor, Some(record), min_players) == checked_match(record)->Ok_0.id,
        scan_from(cursor, pending.push(Some(record)), min_players) == scan_from(
            checked_match(record)->Ok_0.id,
            pending,
            min_players,
        ),
{
    assert(pending.push(Some(record)).drop_last() =~= pending);
}

/// A match that lacks a required field ends the cycle with the error of incomplete data.
/// The cursor stays where the entries visited before have brought it: it does not move
/// to the id of the match, whether the record has one or not.
pub proof fn lemma_incomplete_match_ends_cycle(
    cursor: i64,
    pending: Seq<Option<Match>>,
    record: Match,
    min_players: usize,
)
    requires
        checked_match(record) is Err,
    ensures
        cursor_after(cursor, Some(record), min_players) == cursor,
        scan_from(cursor, pending.push(Some(record)), min_players) == (Progress {
            next: Next::Finished(Err(RefreshError::Data)),
            cursor,
            pending: Seq::empty(),
        }),
        cycle_cursor(cursor, pending.push(Some(record)), min_players) == cursor,
        cycle_result(cursor, pending.push(Some(record)), min_players) == Err::<(), RefreshError>(
            RefreshError::Data,
        ),
{
}

/// Whether an entry is a complete match with enough players to be announced.
pub open spec fn announceable(entry: Option<Match>, min_players: usize) -> bool {
    &&& entry is Some
    &&& checked_match(entry->0) is Ok
    &&& checked_match(entry->0)->Ok_0.players.len() >= min_players
}

/// The id of the match that an entry holds.
pub open spec fn entry_id(entry: Option<Match>) -> i64 {
    checked_match(entry->0)->Ok_0.id
}

/// Whether every entry of a list can be announced and each has a smaller id than the one
/// before it: a feed that lists its matches newest first.
pub open spec fn newest_first(pending: Seq<Option<Match>>, min_players: usize) -> bool {
    &&& forall|i: int| 0 <= i < pending.len() ==> announceable(#[trigger] pending[i], min_players)
    &&& forall|i: int, j: int|
        0 <= i < j < pending.len() ==> entry_id(#[trigger] pending[i]) > entry_id(
            #[trigger] pending[j],
        )
}

/// A cycle on a feed that lists its matches newest first, all of them above the cursor,
/// announces every match, the oldest first, ends well, and leaves the cursor on the
/// newest.
pub proof fn lemma_newest_first_announced_oldest_first(
    cursor: i64,
    pending: Seq<Option<Match>>,
    min_players: usize,
)
    requires
        newest_first(pending, min_players),
        pending.len() > 0 ==> entry_id(pending.last()) > cursor,
    ensures
        cycle_announced(cursor, pending, min_players).len() == pending.len(),
        forall|i: int|
            0 <= i < pending.len() ==> checked_match(pending[pending.len() - 1 - i]->0) == Ok::<
                MatchView,
                crate::error::MissingField,
            >(#[trigger] cycle_announced(cursor, pending, min_players)[i]),
        cycle_result(cursor, pending, min_players) == Ok::<(), RefreshError>(()),
        pending.len() > 0 ==> cycle_cursor(cursor, pending, min_players) == entry_id(pending[0]),
    decreases pending.len(),
{
    if pending.len() > 0 {
        let rest = pending.drop_last();
        let valid = checked_match(pending.last()->0)->Ok_0;
        assert(newest_first(rest, min_players));
        lemma_newest_first_announced_oldest_first(valid.id, rest, min_players);
        assert(cycle_announced(cursor, pending, min_players) == seq![valid] + cycle_announced(
            valid.id,
            rest,
            min_players,
        ));
        assert(cycle_cursor(cursor, pending, min_players) == cycle_cursor(
            valid.id,
            rest,
            min_players,
        ));
    }
}

} // verus!
