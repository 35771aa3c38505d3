//! Match categories and outcomes, and the words and colours that stand for them.

use vstd::prelude::*;

verus! {

/// The kind of lobby a match was played in.
#[derive(Clone, Copy, Debug, PartialEq, Eq, Structural)]
pub enum LobbyType {
    Unranked,
    Practice,
    Tournament,
    Tutorial,
    CoopVsBots,
    TeamMatch,
    SoloQueue,
    Ranked,
    SoloMid,
    BattleCup,
    Event,
    /// Any value that the feed sends and this list does not name.
    Other,
}

/// The rules a match was played under.
#[derive(Clone, Copy, Debug, PartialEq, Eq, Structural)]
pub enum GameMode {
    Unspecified,
    AllPick,
    CaptainsMode,
    RandomDraft,
    SingleDraft,
    AllRandom,
    Intro,
    TheDiretide,
    ReverseCaptainsMode,
    TheGreeviling,
    Tutorial,
    MidOnly,
    LeastPlayed,
    NewPlayerPool,
    CompendiumMatchmaking,
    Custom,
    CaptainsDraft,
    BalancedDraft,
    AbilityDraft,
    Event,
    AllRandomDeathMatch,
    SoloMid,
    AllPickRanked,
    Turbo,
    Mutation,
    /// Any value that the feed sends and this list does not name.
    Other,
}

/// How a match ended for the guild, as far as its players' records tell.
#[derive(Clone, Copy, Debug, PartialEq, Eq, Structural)]
pub enum Outcome {
    /// No player is recorded as having won or lost.
    Cancelled,
    /// Every recorded result is a win.
    Victory,
    /// Every recorded result is a loss.
    Defeat,
    /// Some players are recorded as winners and others as losers.
    Split,
}

/// The word that a title shows for a lobby type.
pub open spec fn lobby_type_text(lobby_type: LobbyType) -> Seq<char> {
    match lobby_type {
        LobbyType::Unranked => "Unranked"@,
        LobbyType::Practice => "Lobby"@,
        LobbyType::Tournament => "The International"@,
        LobbyType::Tutorial => "Tutorial"@,
        LobbyType::CoopVsBots => "Bots"@,
        LobbyType::TeamMatch => "Guild"@,
        LobbyType::SoloQueue => "Solo Ranked"@,
        LobbyType::Ranked => "Ranked"@,
        LobbyType::SoloMid => "Duel"@,
        LobbyType::BattleCup => "Battle Cup"@,
        LobbyType::Event => "Event"@,
        LobbyType::Other => "Unknown"@,
    }
}

/// The word that a title shows for a game mode.
pub open spec fn game_mode_text(game_mode: GameMode) -> Seq<char> {
    match game_mode {
        GameMode::Unspecified => "None"@,
        GameMode::AllPick => "All Pick"@,
        GameMode::CaptainsMode => "Captains Mode"@,
        GameMode::RandomDraft => "Random Draft"@,
        GameMode::SingleDraft => "Single Draft"@,
        GameMode::AllRandom => "All Random"@,
        GameMode::Intro => "Intro"@,
        GameMode::TheDiretide => "Diretide"@,
        GameMode::ReverseCaptainsMode => "Reverse Captains Mode"@,
        GameMode::TheGreeviling => "Greeviling"@,
        GameMode::Tutorial => "Tutorial"@,
        GameMode::MidOnly => "Mid Only"@,
        GameMode::LeastPlayed => "Least Played"@,
        GameMode::NewPlayerPool => "Limited Heroes"@,
        GameMode::CompendiumMatchmaking => "Compendium"@,
        GameMode::Custom => "Custom"@,
        GameMode::CaptainsDraft => "Captains Draft"@,
        GameMode::BalancedDraft => "Balanced Draft"@,
        GameMode::AbilityDraft => "Ability Draft"@,
        GameMode::Event => "Event"@,
        GameMode::AllRandomDeathMatch => "All Random Deathmatch"@,
        GameMode::SoloMid => "Solo Mid"@,
        GameMode::AllPickRanked => "All Draft"@,
        GameMode::Turbo => "Turbo"@,
        GameMode::Mutation => "Mutation"@,
        GameMode::Other => "Unknown"@,
    }
}

/// The word that a title shows for an outcome.
pub open spec fn outcome_text(outcome: Outcome) -> Seq<char> {
    match outcome {
        Outcome::Cancelled => "Cancelled"@,
        Outcome::Victory => "Victory"@,
        Outcome::Defeat => "Defeat"@,
        Outcome::Split => "Clash"@,
    }
}

/// The colour of the notification for an outcome, as a 24-bit RGB value.
pub open spec fn outcome_color(outcome: Outcome) -> u32 {
    match outcome {
        Outcome::Cancelled => 0x5865F2,
        Outcome::Victory => 0x57F287,
        Outcome::Defeat => 0xED4245,
        Outcome::Split => 0xFEE75C,
    }
}

impl LobbyType {
    /// The word for this lobby type; `"Unknown"` for a value outside the list.
    pub fn label(&self) -> (word: &'static str)
        ensures
            word@ == lobby_type_text(*self),
    {
        match self {
            LobbyType::Unranked => "Unranked",
            LobbyType::Practice => "Lobby",
            LobbyType::Tournament => "The International",
            LobbyType::Tutorial => "Tutorial",
            LobbyType::CoopVsBots => "Bots",
            LobbyType::TeamMatch => "Guild",
            LobbyType::SoloQueue => "Solo Ranked",
            LobbyType::Ranked => "Ranked",
            LobbyType::SoloMid => "Duel",
            LobbyType::BattleCup => "Battle Cup",
            LobbyType::Event => "Event",
            LobbyType::Other => "Unknown",
        }
    }
}

impl GameMode {
    /// The word for this game mode; `"Unknown"` for a value outside the list.
    pub fn label(&self) -> (word: &'static str)
        ensures
            word@ == game_mode_text(*self),
    {
        match self {
            GameMode::Unspecified => "None",
            GameMode::AllPick => "All Pick",
            GameMode::CaptainsMode => "Captains Mode",
            GameMode::RandomDraft => "Random Draft",
            GameMode::SingleDraft => "Single Draft",
            GameMode::AllRandom => "All Random",
            GameMode::Intro => "Intro",
            GameMode::TheDiretide => "Diretide",
            GameMode::ReverseCaptainsMode => "Reverse Captains Mode",
            GameMode::TheGreeviling => "Greeviling",
            GameMode::Tutorial => "Tutorial",
            GameMode::MidOnly => "Mid Only",
            GameMode::LeastPlayed => "Least Played",
            GameMode::NewPlayerPool => "Limited Heroes",
            GameMode::CompendiumMatchmaking => "Compendium",
            GameMode::Custom => "Custom",
            GameMode::CaptainsDraft => "Captains Draft",
            GameMode::BalancedDraft => "Balanced Draft",
            GameMode::AbilityDraft => "Ability Draft",
            GameMode::Event => "Event",
            GameMode::AllRandomDeathMatch => "All Random Deathmatch",
            GameMode::SoloMid => "Solo Mid",
            GameMode::AllPickRanked => "All Draft",
            GameMode::Turbo => "Turbo",
            GameMode::Mutation => "Mutation",
            GameMode::Other => "Unknown",
        }
    }
}

impl Outcome {
    /// The word for this outcome. A split result is shown as a clash, not as a fault.
    pub fn label(&self) -> (word: &'static str)
        ensures
            word@ == outcome_text(*self),
    {
        match self {
            Outcome::Cancelled => "Cancelled",
            Outcome::Victory => "Victory",
            Outcome::Defeat => "Defeat",
            Outcome::Split => "Clash",
        }
    }

    /// The colour for this outcome.
    pub fn color(&self) -> (rgb: u32)
        ensures
            rgb == outcome_color(*self),
    {
        match self {
            Outcome::Cancelled => 0x5865F2,
            Outcome::Victory => 0x57F287,
            Outcome::Defeat => 0xED4245,
            Outcome::Split => 0xFEE75C,
        }
    }
}

} // verus!
