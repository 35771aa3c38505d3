//! What is announced for a match: the words, the colour and the fields of its notification.

use vstd::prelude::*;
use vstd::string::*;
use crate::classify::{borrowed_views, classify, outcome_of, partition, side_of};
use crate::error::RefreshError;
use crate::icon::{hero_icon, hero_icon_text};
use crate::label::{game_mode_text, lobby_type_text, outcome_text, outcome_color, GameMode, LobbyType, Outcome};
use crate::record::Player;
use crate::text::{decimal, digit_char, integer, push_decimal, push_integer, push_signed_integer, push_two_wide, signed_integer, two_wide};
use crate::validate::{checked_player, validate_player, GuildInfo, GuildView, MatchView, PlayerView, ValidMatch, ValidPlayer};

verus! {

/// One titled entry in the body of a notification.
#[derive(Clone, Debug)]
pub struct Field {
    pub name: String,
    pub value: String,
    /// Whether the entry may share its row with its neighbours.
    pub inline: bool,
}

/// What one entry of a notification says.
pub struct FieldView {
    pub name: Seq<char>,
    pub value: Seq<char>,
    pub inline: bool,
}

impl View for Field {
    type V = FieldView;

    open spec fn view(&self) -> FieldView {
        FieldView { name: self.name@, value: self.value@, inline: self.inline }
    }
}

/// The announcement of one match, ready to be handed to whatever delivers it.
#[derive(Clone, Debug)]
pub struct Notification {
    /// The line above the card: a link to the match.
    pub content: String,
    pub author_name: String,
    pub author_url: String,
    pub author_icon_url: String,
    pub title: String,
    /// The colour of the card, as a 24-bit RGB value.
    pub color: u32,
    pub fields: Vec<Field>,
    /// The end of the match as RFC 3339 text.
    pub timestamp: String,
}

/// What a notification says.
pub struct NotificationView {
    pub content: Seq<char>,
    pub author_name: Seq<char>,
    pub author_url: Seq<char>,
    pub author_icon_url: Seq<char>,
    pub title: Seq<char>,
    pub color: u32,
    pub fields: Seq<FieldView>,
    pub timestamp: Seq<char>,
}

/// What each of a list of entries says.
pub open spec fn field_views(fields: Seq<Field>) -> Seq<FieldView> {
    fields.map_values(|f: Field| f@)
}

impl View for Notification {
    type V = NotificationView;

    open spec fn view(&self) -> NotificationView {
        NotificationView {
            content: self.content@,
            author_name: self.author_name@,
            author_url: self.author_url@,
            author_icon_url: self.author_icon_url@,
            title: self.title@,
            color: self.color,
            fields: field_views(self.fields@),
            timestamp: self.timestamp@,
        }
    }
}

/// The whole minutes of a duration, rounded towards zero.
pub open spec fn whole_minutes(seconds: int) -> int {
    if seconds >= 0 {
        seconds / 60
    } else {
        -((-seconds) / 60)
    }
}

/// The seconds of a duration that its whole minutes leave over; they carry the sign of
/// the duration.
pub open spec fn odd_seconds(seconds: int) -> int {
    if seconds >= 0 {
        seconds % 60
    } else {
        -((-seconds) % 60)
    }
}

/// A duration as `minutes:seconds`, the seconds filled with a zero to two characters.
pub open spec fn duration_text(seconds: int) -> Seq<char> {
    integer(whole_minutes(seconds)) + ":"@ + two_wide(odd_seconds(seconds))
}

/// The rating of a player as it follows the score: a space, then the rating with its
/// sign between two backticks. Nothing where there is no rating.
pub open spec fn rating_text(imp: Option<i16>) -> Seq<char> {
    match imp {
        Some(rating) => " `"@ + signed_integer(rating as int) + "`"@,
        None => Seq::empty(),
    }
}

/// The line of one player: icon, name, then kills, deaths and assists between square
/// brackets, then the rating if there is one.
pub open spec fn player_line(player: PlayerView) -> Seq<char> {
    hero_icon_text(player.hero_id) + " "@ + player.name + " ["@ + decimal(player.kills as nat)
        + "/"@ + decimal(player.deaths as nat) + "/"@ + decimal(player.assists as nat) + "]"@
        + rating_text(player.imp)
}

/// The lines of a list of players, one after the other with a line break between each
/// two.
pub open spec fn joined_lines(players: Seq<PlayerView>) -> Seq<char>
    decreases players.len(),
{
    if players.len() == 0 {
        Seq::empty()
    } else if players.len() == 1 {
        player_line(players[0])
    } else {
        joined_lines(players.drop_last()) + "\n"@ + player_line(players.last())
    }
}

/// The title of a match: outcome, lobby type and game mode, set apart by raised dots.
pub open spec fn title_text(outcome: Outcome, lobby_type: LobbyType, game_mode: GameMode) -> Seq<
    char,
> {
    outcome_text(outcome) + " \u{b7} "@ + lobby_type_text(lobby_type) + " \u{b7} "@
        + game_mode_text(game_mode)
}

/// The entry that lists the players of one side.
pub open spec fn side_field(players: Seq<PlayerView>, radiant: bool) -> FieldView {
    FieldView {
        name: if radiant {
            "<:radiant:958274781919207505> Radiant"@
        } else {
            "<:dire:958274694203719740> Dire"@
        },
        value: joined_lines(side_of(players, radiant)),
        inline: true,
    }
}

/// The entry of one side where the side has players, and no entry where it has none.
pub open spec fn side_fields(players: Seq<PlayerView>, radiant: bool) -> Seq<FieldView> {
    if side_of(players, radiant).len() > 0 {
        seq![side_field(players, radiant)]
    } else {
        Seq::empty()
    }
}

/// The entry that tells how long the match lasted.
pub open spec fn duration_field(seconds: int) -> FieldView {
    FieldView { name: ":clock3: Duration"@, value: duration_text(seconds), inline: false }
}

/// The notification for a match of a guild.
pub open spec fn notification_of(record: MatchView, guild: GuildView) -> NotificationView {
    NotificationView {
        content: "https://stratz.com/matches/"@ + integer(record.id as int),
        author_name: guild.name,
        author_url: "https://stratz.com/guilds/"@ + integer(guild.id as int),
        author_icon_url: "https://steamusercontent-a.akamaihd.net/ugc/"@ + guild.logo + "/"@,
        title: title_text(outcome_of(record.players), record.lobby_type, record.game_mode),
        color: outcome_color(outcome_of(record.players)),
        fields: side_fields(record.players, true) + side_fields(record.players, false)
            + seq![duration_field(record.duration_seconds as int)],
        timestamp: record.ended_at,
    }
}

/// A duration that is not negative is written as its whole minutes, a colon, and the
/// seconds left over in exactly two digits.
pub proof fn lemma_duration_two_digit_seconds(seconds: int)
    requires
        seconds >= 0,
    ensures
        duration_text(seconds) == decimal((seconds / 60) as nat) + ":"@ + seq![
            digit_char((seconds % 60) / 10),
            digit_char((seconds % 60) % 10),
        ],
{
    reveal_with_fuel(decimal, 2);
}

/// Writes a duration given in seconds as `minutes:seconds`.
pub fn format_duration(seconds: i64) -> (text: String)
    ensures
        text@ == duration_text(seconds as int),
{
    let mut text = String::new();
    push_integer(&mut text, seconds / 60);
    text.append(":");
    push_two_wide(&mut text, seconds % 60);
    text
}

/// Writes the line of a player whose record is complete.
pub fn player_text(player: &ValidPlayer) -> (line: String)
    ensures
        line@ == player_line(player@),
{
    let mut line = String::new();
    line.append(hero_icon(player.hero_id));
    line.append(" ");
    line.append(player.name.as_str());
    line.append(" [");
    push_decimal(&mut line, player.kills as u64);
    line.append("/");
    push_decimal(&mut line, player.deaths as u64);
    line.append("/");
    push_decimal(&mut line, player.assists as u64);
    line.append("]");
    match player.imp {
        Some(rating) => {
            line.append(" `");
            push_signed_integer(&mut line, rating as i64);
            line.append("`");
        },
        None => {},
    }
    line
}

/// Writes the line of a player, provided that the record is complete.
///
/// A record that lacks a required field yields no line but the error of incomplete data.
pub fn render_player(player: Player) -> (line: Result<String, RefreshError>)
    ensures
        match line {
            Ok(text) => checked_player(player) matches Ok(valid) && text@ == player_line(valid),
            Err(error) => checked_player(player) is Err && error == RefreshError::Data,
        },
{
    match validate_player(&player) {
        Ok(valid) => Ok(player_text(&valid)),
        Err(_) => Err(RefreshError::Data),
    }
}

/// Writes the lines of the players of one side, a line break between each two.
pub fn side_text(players: &Vec<&ValidPlayer>) -> (text: String)
    ensures
        text@ == joined_lines(borrowed_views(players@)),
{
    let ghost views = borrowed_views(players@);
    let mut text = String::new();
    let mut i: usize = 0;
    while i < players.len()
        invariant
            i <= players.len(),
            views == borrowed_views(players@),
            text@ == joined_lines(views.take(i as int)),
        decreases players.len() - i,
    {
        let line = player_text(players[i]);
        proof {
            let seen = views.take(i + 1);
            assert(seen.drop_last() =~= views.take(i as int));
        }
        if i > 0 {
            text.append("\n");
        }
        text.append(line.as_str());
        i += 1;
    }
    assert(views.take(i as int) =~= views);
    text
}

/// Writes the title of a match.
pub fn title(outcome: Outcome, lobby_type: LobbyType, game_mode: GameMode) -> (text: String)
    ensures
        text@ == title_text(outcome, lobby_type, game_mode),
{
    let mut text = String::new();
    text.append(outcome.label());
    text.append(" \u{b7} ");
    text.append(lobby_type.label());
    text.append(" \u{b7} ");
    text.append(game_mode.label());
    text
}

/// Describes a match whose record is complete: classifies it, parts its players into
/// their sides and assembles the notification.
pub fn describe(record: &ValidMatch, guild: &GuildInfo) -> (notification: Notification)
    ensures
        notification@ == notification_of(record@, guild@),
{
    let outcome = classify(&record.players);
    let (radiant, dire) = partition(&record.players);

    let mut content = String::new();
    content.append("https://stratz.com/matches/");
    push_integer(&mut content, record.id);

    let mut author_url = String::new();
    author_url.append("https://stratz.com/guilds/");
    push_integer(&mut author_url, guild.id);

    let mut author_icon_url = String::new();
    author_icon_url.append("https://steamusercontent-a.akamaihd.net/ugc/");
    author_icon_url.append(guild.logo.as_str());
    author_icon_url.append("/");

    let mut fields: Vec<Field> = Vec::new();
    if radiant.len() > 0 {
        let field = Field {
            name: String::from_str("<:radiant:958274781919207505> Radiant"),
            value: side_text(&radiant),
            inline: true,
        };
        fields.push(field);
    }
    if dire.len() > 0 {
        let field = Field {
            name: String::from_str("<:dire:958274694203719740> Dire"),
            value: side_text(&dire),
            inline: true,
        };
        fields.push(field);
    }
    let field = Field {
        name: String::from_str(":clock3: Duration"),
        value: format_duration(record.duration_seconds),
        inline: false,
    };
    fields.push(field);
    assert(field_views(fields@) =~= notification_of(record@, guild@).fields);

    Notification {
        content,
        author_name: guild.name.clone(),
        author_url,
        author_icon_url,
        title: title(outcome, record.lobby_type, record.game_mode),
        color: outcome.color(),
        fields,
        timestamp: record.ended_at.clone(),
    }
}

} // verus!
