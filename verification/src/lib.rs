//! Following a guild's matches: which matches of the feed are new, what is announced for
//! each, and in which order.
//!
//! A scan cycle takes the answer to one query for the guild's latest matches, checks it,
//! and visits the matches from the oldest to the newest. Each match above the cursor moves
//! the cursor to its id and, unless it has too few players, is described by a
//! [`notification::Notification`]. Fetching the feed and delivering the notifications is
//! left to the caller, who drives a cycle through [`scan::MatchScan`].
//!
//! - [`record`]: the feed as it arrives, every field optional.
//! - [`validate`]: complete records, or the first field that is missing.
//! - [`classify`]: the outcome of a match and the two sides of its players.
//! - [`label`], [`icon`], [`text`], [`instant`]: the words, icons, numerals and timestamps
//!   of a notification.
//! - [`notification`]: the notification of a match.
//! - [`scan`]: one cycle, step by step, and its cursor.
//! - [`cycle`]: whole cycles, and what holds of all of them.
//! - [`stratz`], [`error`]: the address of the feed, and what can go wrong.

pub mod classify;
pub mod cycle;
pub mod error;
pub mod icon;
pub mod instant;
pub mod label;
pub mod notification;
pub mod record;
pub mod scan;
pub mod stratz;
pub mod text;
pub mod validate;
