//! One scan cycle: which matches of a response are new, in which order they are
//! announced, and how far the cursor moves.
//!
//! The cursor is the id of the newest match that a scan has taken note of. A match is
//! new if its id lies above the cursor. The cursor moves to a new match's id before the
//! match is described and handed out, so a notification that cannot be delivered is not
//! made again.

use vstd::prelude::*;
use crate::error::RefreshError;
use crate::notification::{describe, notification_of, Notification};
use crate::record::{Match, Response};
use crate::stratz::StratzError;
use crate::validate::{checked_envelope, checked_match, validate_envelope, validate_match, EnvelopeView, GuildInfo, MatchView};

verus! {

/// The cursor of a scan that has seen no match yet: below every id of the feed.
pub const NO_MATCH_SEEN: i64 = -1;

/// The least number of players with which a match is announced.
pub const MATCH_ANNOUNCE_PLAYERS: usize = 1;

/// The time from the end of one scan to the start of the next, in seconds.
pub const MATCH_SCAN_PERIOD_SECS: u64 = 1800;

/// What a scan makes of one entry of the list of matches.
pub enum Verdict {
    /// The entry is empty or lacks a required field: the cycle ends here.
    Rejected,
    /// The match is not newer than the cursor: nothing is done.
    Seen,
    /// The match is new but has too few players: the cursor moves, nothing is announced.
    Passed(MatchView),
    /// The match is new: the cursor moves and the match is announced.
    Announced(MatchView),
}

/// The verdict on one entry. The record is checked first, as a whole; then its id is held
/// against the cursor; then its players are counted.
pub open spec fn verdict(cursor: i64, entry: Option<Match>, min_players: usize) -> Verdict {
    match entry {
        None => Verdict::Rejected,
        Some(record) => match checked_match(record) {
            Err(_) => Verdict::Rejected,
            Ok(valid) => if valid.id <= cursor {
                Verdict::Seen
            } else if valid.players.len() < min_players {
                Verdict::Passed(valid)
            } else {
                Verdict::Announced(valid)
            },
        },
    }
}

/// Where the cursor stands once an entry has been dealt with.
pub open spec fn cursor_after(cursor: i64, entry: Option<Match>, min_players: usize) -> i64 {
    match verdict(cursor, entry, min_players) {
        Verdict::Rejected => cursor,
        Verdict::Seen => cursor,
        Verdict::Passed(valid) => valid.id,
        Verdict::Announced(valid) => valid.id,
    }
}

/// What a cycle does next.
pub enum Next {
    /// Hand out the notification of this match.
    Announce(MatchView),
    /// Nothing more: the cycle is over, with this result.
    Finished(Result<(), RefreshError>),
}

/// Where a cycle has got to: what it does next, where the cursor stands, and which
/// entries are still to be visited.
pub struct Progress {
    pub next: Next,
    pub cursor: i64,
    pub pending: Seq<Option<Match>>,
}

/// Runs a cycle on from a cursor and a list of entries still to be visited, up to the next
/// thing to hand out or to the end. The list is in the order of the feed, newest first,
/// and is visited from its last entry to its first. An entry that is rejected ends the
/// cycle with the error of incomplete data and leaves nothing to be visited.
pub open spec fn scan_from(cursor: i64, pending: Seq<Option<Match>>, min_players: usize) -> Progress
    decreases pending.len(),
{
    if pending.len() == 0 {
        Progress { next: Next::Finished(Ok(())), cursor, pending }
    } else {
        match verdict(cursor, pending.last(), min_players) {
            Verdict::Rejected => Progress {
                next: Next::Finished(Err(RefreshError::Data)),
                cursor,
                pending: Seq::empty(),
            },
            Verdict::Seen => scan_from(cursor, pending.drop_last(), min_players),
            Verdict::Passed(valid) => scan_from(valid.id, pending.drop_last(), min_players),
            Verdict::Announced(valid) => Progress {
                next: Next::Announce(valid),
                cursor: valid.id,
                pending: pending.drop_last(),
            },
        }
    }
}

/// Where a cycle stands once it has been told how the delivery of its last notification
/// went: it runs on after a delivery, and ends with the error of delivery, leaving nothing
/// to be visited, after a failure.
pub open spec fn scan_after_dispatch(
    delivered: bool,
    cursor: i64,
    pending: Seq<Option<Match>>,
    min_players: usize,
) -> Progress {
    if delivered {
        scan_from(cursor, pending, min_players)
    } else {
        Progress {
            next: Next::Finished(Err(RefreshError::Discord)),
            cursor,
            pending: Seq::empty(),
        }
    }
}

/// What the outcome of a fetch opens a cycle with: the guild and its list of matches, or
/// the error that ends the cycle before it visits a match. A failed fetch is passed on; a
/// response that reports errors, or is not complete at its top, is incomplete data.
pub open spec fn opened(fetched: Result<Response, StratzError>) -> Result<
    EnvelopeView,
    RefreshError,
> {
    match fetched {
        Err(cause) => Err(RefreshError::Stratz(cause)),
        Ok(response) => if response.errors is Some {
            Err(RefreshError::Data)
        } else {
            match checked_envelope(response) {
                Err(_) => Err(RefreshError::Data),
                Ok(envelope) => Ok(envelope),
            }
        },
    }
}

/// Deals with one match of the feed: decides whether it is to be announced and, if so,
/// describes it.
///
/// The record is checked first; if it lacks a field the cursor stays and the error of
/// incomplete data comes back. A match that is not newer than the cursor is passed over.
/// For a new match the cursor moves to its id; it is then announced unless it has fewer
/// than `min_players` players.
pub fn match_announce(
    current_match_id: &mut i64,
    match_: &Match,
    guild: &GuildInfo,
    min_players: usize,
) -> (announcement: Result<Option<Notification>, RefreshError>)
    ensures
        *final(current_match_id) == cursor_after(
            *old(current_match_id),
            Some(*match_),
            min_players,
        ),
        *final(current_match_id) >= *old(current_match_id),
        match verdict(*old(current_match_id), Some(*match_), min_players) {
            Verdict::Rejected => announcement matches Err(error) && error == RefreshError::Data,
            Verdict::Seen => announcement matches Ok(None),
            Verdict::Passed(_) => announcement matches Ok(None),
            Verdict::Announced(valid) => announcement matches Ok(Some(notification))
                && notification@ == notification_of(valid, guild@),
        },
{
    let valid = match validate_match(match_) {
        Ok(valid) => valid,
        Err(_) => return Err(RefreshError::Data),
    };
    if valid.id <= *current_match_id {
        return Ok(None);
    }
    *current_match_id = valid.id;
    if valid.players.len() < min_players {
        return Ok(None);
    }
    Ok(Some(describe(&valid, guild)))
}

/// What the caller of a running cycle is to do.
#[derive(Debug)]
pub enum ScanStep {
    /// Deliver this notification, then report how it went.
    Announce(Notification),
    /// Stop: the cycle is over, with this result.
    Finished(Result<(), RefreshError>),
}

/// A cycle under way: the guild, the entries of its list of matches that are still to be
/// visited, and the least number of players with which a match is announced.
#[derive(Clone, Debug)]
pub struct MatchScan {
    pub guild: GuildInfo,
    /// In the order of the feed, newest first; visited from the back.
    pub pending: Vec<Option<Match>>,
    pub min_players: usize,
}

impl MatchScan {
    /// Opens a cycle on the outcome of a fetch.
    pub fn begin(fetched: Result<Response, StratzError>, min_players: usize) -> (scan: Result<
        MatchScan,
        RefreshError,
    >)
        ensures
            match scan {
                Ok(scan) => opened(fetched) == Ok::<EnvelopeView, RefreshError>(
                    EnvelopeView { guild: scan.guild@, matches: scan.pending@ },
                ) && scan.min_players == min_players,
                Err(error) => opened(fetched) == Err::<EnvelopeView, RefreshError>(error),
            },
    {
        let response = match fetched {
            Ok(response) => response,
            Err(cause) => return Err(RefreshError::Stratz(cause)),
        };
        if response.errors.is_some() {
            return Err(RefreshError::Data);
        }
        match validate_envelope(response) {
            Ok(envelope) => Ok(
                MatchScan { guild: envelope.guild, pending: envelope.matches, min_players },
            ),
            Err(_) => Err(RefreshError::Data),
        }
    }

    /// Runs the cycle on: visits the pending entries, oldest first, until one is to be
    /// announced, one is rejected, or none is left. The cursor never moves back.
    pub fn advance(&mut self, current_match_id: &mut i64) -> (step: ScanStep)
        ensures
            final(self).guild == old(self).guild,
            final(self).min_players == old(self).min_players,
            *final(current_match_id) >= *old(current_match_id),
            ({
                let progress = scan_from(
                    *old(current_match_id),
                    old(self).pending@,
                    old(self).min_players,
                );
                &&& *final(current_match_id) == progress.cursor
                &&& final(self).pending@ == progress.pending
                &&& match progress.next {
                    Next::Announce(valid) => step matches ScanStep::Announce(notification)
                        && notification@ == notification_of(valid, old(self).guild@),
                    Next::Finished(result) => step matches ScanStep::Finished(ended) && ended
                        == result,
                }
            }),
    {
        loop
            invariant
                self.guild == old(self).guild,
                self.min_players == old(self).min_players,
                *current_match_id >= *old(current_match_id),
                scan_from(*current_match_id, self.pending@, self.min_players) == scan_from(
                    *old(current_match_id),
                    old(self).pending@,
                    old(self).min_players,
                ),
            decreases self.pending@.len(),
        {
            match self.pending.pop() {
                None => {
                    return ScanStep::Finished(Ok(()));
                },
                Some(None) => {
                    self.pending = Vec::new();
                    return ScanStep::Finished(Err(RefreshError::Data));
                },
                Some(Some(record)) => {
                    match match_announce(current_match_id, &record, &self.guild, self.min_players) {
                        Ok(None) => {},
                        Ok(Some(notification)) => {
                            return ScanStep::Announce(notification);
                        },
                        Err(error) => {
                            self.pending = Vec::new();
                            return ScanStep::Finished(Err(error));
                        },
                    }
                },
            }
        }
    }

    /// Takes the report of a delivery and runs the cycle on if it succeeded. A delivery
    /// that failed ends the cycle: the entries not yet visited are dropped, and the cursor
    /// stays on the match whose notification was lost.
    pub fn dispatched(&mut self, current_match_id: &mut i64, delivered: bool) -> (step: ScanStep)
        ensures
            final(self).guild == old(self).guild,
            final(self).min_players == old(self).min_players,
            *final(current_match_id) >= *old(current_match_id),
            ({
                let progress = scan_after_dispatch(
                    delivered,
                    *old(current_match_id),
                    old(self).pending@,
                    old(self).min_players,
                );
                &&& *final(current_match_id) == progress.cursor
                &&& final(self).pending@ == progress.pending
                &&& match progress.next {
                    Next::Announce(valid) => step matches ScanStep::Announce(notification)
                        && notification@ == notification_of(valid, old(self).guild@),
                    Next::Finished(result) => step matches ScanStep::Finished(ended) && ended
                        == result,
                }
            }),
    {
        if delivered {
            self.advance(current_match_id)
        } else {
            self.pending = Vec::new();
            ScanStep::Finished(Err(RefreshError::Discord))
        }
    }
}

} // verus!
