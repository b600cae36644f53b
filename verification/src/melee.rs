//! The state of the game, decoded out of bytes of the emulated RAM.

use vstd::prelude::*;
use crate::endian::ByteSize;
use crate::memory::{CopyOutcome, DolphinMemory, ReadError};
use crate::text::TextEncoding;

verus! {

/// How the match timer runs. The game keeps the mode in the low bits of a
/// status byte.
#[derive(Clone, Copy, Debug, PartialEq, Eq, Structural)]
pub enum TimerMode {
    Countup,
    Countdown,
    Hidden,
    Frozen,
}

impl TimerMode {
    /// The bits of the status byte that stand for the mode.
    pub open spec fn flag(self) -> u8 {
        match self {
            TimerMode::Countup => 3,
            TimerMode::Countdown => 2,
            TimerMode::Hidden => 1,
            TimerMode::Frozen => 0,
        }
    }

    /// The status byte has all the bits of the mode.
    pub open spec fn matches_status(self, status: u8) -> bool {
        status & self.flag() == self.flag()
    }

    /// `other` is tried before `self`: the modes are tried in the order
    /// `Countup`, `Countdown`, `Hidden`, `Frozen`.
    pub open spec fn tried_after(self, other: TimerMode) -> bool {
        other.flag() > self.flag()
    }

    /// The mode of a status byte: the first, in the order `Countup`,
    /// `Countdown`, `Hidden`, `Frozen`, whose bits the byte has; `Countup`
    /// where it has those of none.
    pub open spec fn of_status(status: u8) -> TimerMode {
        if TimerMode::Countup.matches_status(status) {
            TimerMode::Countup
        } else if TimerMode::Countdown.matches_status(status) {
            TimerMode::Countdown
        } else if TimerMode::Hidden.matches_status(status) {
            TimerMode::Hidden
        } else if TimerMode::Frozen.matches_status(status) {
            TimerMode::Frozen
        } else {
            TimerMode::Countup
        }
    }

    /// The mode of a status byte that may be absent: `Countup` without one.
    pub open spec fn of_read(status: Option<u8>) -> TimerMode {
        match status {
            Some(status) => TimerMode::of_status(status),
            None => TimerMode::Countup,
        }
    }

    /// The bits of the status byte that stand for the mode.
    pub fn bits(self) -> (flag: u8)
        ensures
            flag == self.flag(),
    {
        match self {
            TimerMode::Countup => 3,
            TimerMode::Countdown => 2,
            TimerMode::Hidden => 1,
            TimerMode::Frozen => 0,
        }
    }

    /// Decodes the timer mode of a status byte.
    pub fn from_status(status: u8) -> (mode: TimerMode)
        ensures
            mode == TimerMode::of_status(status),
    {
        if status & 3 == 3 {
            TimerMode::Countup
        } else if status & 2 == 2 {
            TimerMode::Countdown
        } else if status & 1 == 1 {
            TimerMode::Hidden
        } else if status & 0 == 0 {
            TimerMode::Frozen
        } else {
            TimerMode::Countup
        }
    }

    /// Decodes the timer mode of a status byte that could not be read or
    /// could: without a byte the mode is `Countup`.
    pub fn from_read(status: Option<u8>) -> (mode: TimerMode)
        ensures
            mode == TimerMode::of_read(status),
    {
        match status {
            Some(status) => TimerMode::from_status(status),
            None => TimerMode::Countup,
        }
    }
}

/// The first match wins: the mode of a status byte matches the byte, and no
/// mode that is tried before it does. A byte that matches no mode has the
/// mode `Countup`.
pub proof fn lemma_timer_mode_first_match(status: u8, earlier: TimerMode)
    ensures
        (exists|mode: TimerMode| mode.matches_status(status)) ==> TimerMode::of_status(
            status,
        ).matches_status(status),
        TimerMode::of_status(status).tried_after(earlier) ==> !earlier.matches_status(status),
        (forall|mode: TimerMode| !mode.matches_status(status)) ==> TimerMode::of_status(status)
            == TimerMode::Countup,
{
    if exists|mode: TimerMode| mode.matches_status(status) {
        let mode = choose|mode: TimerMode| mode.matches_status(status);
        match mode {
            TimerMode::Countup => {},
            TimerMode::Countdown => {},
            TimerMode::Hidden => {},
            TimerMode::Frozen => {},
        }
    }
    if TimerMode::of_status(status).tried_after(earlier) {
        match earlier {
            TimerMode::Countup => {},
            TimerMode::Countdown => {},
            TimerMode::Hidden => {},
            TimerMode::Frozen => {},
        }
    }
    if forall|mode: TimerMode| !mode.matches_status(status) {
        assert(!TimerMode::Countup.matches_status(status));
        assert(!TimerMode::Frozen.matches_status(status));
    }
}

/// The modes of the status bytes 3, 2, 1 and 0, and of every byte with both
/// low bits clear.
pub proof fn lemma_timer_mode_values(status: u8)
    ensures
        TimerMode::of_status(3) == TimerMode::Countup,
        TimerMode::of_status(2) == TimerMode::Countdown,
        TimerMode::of_status(1) == TimerMode::Hidden,
        TimerMode::of_status(0) == TimerMode::Frozen,
        status % 4 == 0 ==> TimerMode::of_status(status) == TimerMode::Frozen,
        status % 4 == 3 ==> TimerMode::of_status(status) == TimerMode::Countup,
{
    assert(3u8 & 3u8 == 3u8) by (bit_vector);
    assert(2u8 & 3u8 != 3u8 && 2u8 & 2u8 == 2u8) by (bit_vector);
    assert(1u8 & 3u8 != 3u8 && 1u8 & 2u8 != 2u8 && 1u8 & 1u8 == 1u8) by (bit_vector);
    assert(0u8 & 3u8 != 3u8 && 0u8 & 2u8 != 2u8 && 0u8 & 1u8 != 1u8 && 0u8 & 0u8 == 0u8)
        by (bit_vector);
    assert(status % 4 == 0 ==> status & 3u8 != 3u8 && status & 2u8 != 2u8 && status & 1u8 != 1u8
        && status & 0u8 == 0u8) by (bit_vector);
    assert(status % 4 == 3 ==> status & 3u8 == 3u8) by (bit_vector);
}

/// State of the connection to an opponent in online play.
#[derive(Clone, Copy, Debug, PartialEq, Eq, Structural)]
pub enum MatchmakingMode {
    Idle,
    Initializing,
    Matchmaking,
    OpponentConnecting,
    ConnectionSuccess,
    ErrorEncountered,
}

impl MatchmakingMode {
    /// The mode that the game stores as `value`, if there is one.
    pub open spec fn of_byte(value: u8) -> Option<MatchmakingMode> {
        if value == 0 {
            Some(MatchmakingMode::Idle)
        } else if value == 1 {
            Some(MatchmakingMode::Initializing)
        } else if value == 2 {
            Some(MatchmakingMode::Matchmaking)
        } else if value == 3 {
            Some(MatchmakingMode::OpponentConnecting)
        } else if value == 4 {
            Some(MatchmakingMode::ConnectionSuccess)
        } else if value == 5 {
            Some(MatchmakingMode::ErrorEncountered)
        } else {
            None
        }
    }

    /// Decodes the state of the connection.
    pub fn from_byte(value: u8) -> (mode: Option<MatchmakingMode>)
        ensures
            mode == MatchmakingMode::of_byte(value),
    {
        match value {
            0 => Some(MatchmakingMode::Idle),
            1 => Some(MatchmakingMode::Initializing),
            2 => Some(MatchmakingMode::Matchmaking),
            3 => Some(MatchmakingMode::OpponentConnecting),
            4 => Some(MatchmakingMode::ConnectionSuccess),
            5 => Some(MatchmakingMode::ErrorEncountered),
            _ => None,
        }
    }
}

/// The menu of online play that the player is in.
#[derive(Clone, Copy, Debug, PartialEq, Eq, Structural)]
pub enum SlippiMenuScene {
    Ranked,
    Unranked,
    Direct,
    Teams,
}

impl SlippiMenuScene {
    /// The menu that the game stores as `value`, if there is one.
    pub open spec fn of_byte(value: u8) -> Option<SlippiMenuScene> {
        if value == 0 {
            Some(SlippiMenuScene::Ranked)
        } else if value == 1 {
            Some(SlippiMenuScene::Unranked)
        } else if value == 2 {
            Some(SlippiMenuScene::Direct)
        } else if value == 3 {
            Some(SlippiMenuScene::Teams)
        } else {
            None
        }
    }

    /// The name of the menu.
    pub open spec fn label(self) -> Seq<char> {
        match self {
            SlippiMenuScene::Ranked => "Ranked"@,
            SlippiMenuScene::Unranked => "Unranked"@,
            SlippiMenuScene::Direct => "Direct"@,
            SlippiMenuScene::Teams => "Teams"@,
        }
    }

    /// Decodes the menu of online play.
    pub fn from_byte(value: u8) -> (menu: Option<SlippiMenuScene>)
        ensures
            menu == SlippiMenuScene::of_byte(value),
    {
        match value {
            0 => Some(SlippiMenuScene::Ranked),
            1 => Some(SlippiMenuScene::Unranked),
            2 => Some(SlippiMenuScene::Direct),
            3 => Some(SlippiMenuScene::Teams),
            _ => None,
        }
    }

    /// The name of the menu.
    pub fn name(self) -> (name: &'static str)
        ensures
            name@ == self.label(),
    {
        match self {
            SlippiMenuScene::Ranked => "Ranked",
            SlippiMenuScene::Unranked => "Unranked",
            SlippiMenuScene::Direct => "Direct",
            SlippiMenuScene::Teams => "Teams",
        }
    }
}

/// The variants of the multi-man melee.
#[derive(Clone, Copy, Debug, PartialEq, Eq, Structural)]
pub enum MultiManVariant {
    TenMan,
    HundredMan,
    ThreeMinute,
    FifteenMinute,
    Endless,
    Cruel,
}

/// A stage, by the number under which the game stores it.
#[derive(Clone, Copy, Debug, PartialEq, Eq, Structural)]
pub struct MeleeStage {
    pub id: u8,
}

/// A character, by the number under which the game stores it.
#[derive(Clone, Copy, Debug, PartialEq, Eq, Structural)]
pub struct MeleeCharacter {
    pub id: u8,
}

/// What the player is doing in the game.
#[derive(Clone, Copy, Debug, PartialEq, Eq, Structural)]
pub enum MeleeScene {
    VsMode,
    UnclePunch,
    TrainingMode,
    SlippiOnline(Option<SlippiMenuScene>),
    SlippiCss(Option<SlippiMenuScene>),
    HomeRunContest,
    TargetTest(Option<MeleeStage>),
    MultiManMelee(MultiManVariant),
}

/// What a pair of scene bytes asks to be read besides.
#[derive(Clone, Copy, Debug, PartialEq, Eq, Structural)]
pub enum SceneDetail {
    /// The scene is known from the pair alone.
    Nothing,
    /// The menu of online play.
    OnlineMenu,
    /// The stage.
    Stage,
}

/// What the scene of the pair `(major, minor)` depends on besides the pair.
pub open spec fn scene_detail(major: u8, minor: u8) -> SceneDetail {
    if major == 8 && (minor == 2 || minor == 0) {
        SceneDetail::OnlineMenu
    } else if major == 15 && minor == 1 {
        SceneDetail::Stage
    } else {
        SceneDetail::Nothing
    }
}

/// The scene of the pair `(major, minor)`, with the menu of online play and
/// the stage where the scene holds one; `None` for a pair that stands for no
/// known scene.
pub open spec fn scene_of(
    major: u8,
    minor: u8,
    menu: Option<SlippiMenuScene>,
    stage: Option<MeleeStage>,
) -> Option<MeleeScene> {
    if major == 2 && minor == 2 {
        Some(MeleeScene::VsMode)
    } else if major == 43 && minor == 1 {
        Some(MeleeScene::UnclePunch)
    } else if major == 28 && minor == 2 {
        Some(MeleeScene::TrainingMode)
    } else if major == 8 && minor == 2 {
        Some(MeleeScene::SlippiOnline(menu))
    } else if major == 8 && minor == 0 {
        Some(MeleeScene::SlippiCss(menu))
    } else if major == 32 && minor == 1 {
        Some(MeleeScene::HomeRunContest)
    } else if major == 15 && minor == 1 {
        Some(MeleeScene::TargetTest(stage))
    } else if major == 33 && minor == 1 {
        Some(MeleeScene::MultiManMelee(MultiManVariant::TenMan))
    } else if major == 34 && minor == 1 {
        Some(MeleeScene::MultiManMelee(MultiManVariant::HundredMan))
    } else if major == 35 && minor == 1 {
        Some(MeleeScene::MultiManMelee(MultiManVariant::ThreeMinute))
    } else if major == 36 && minor == 1 {
        Some(MeleeScene::MultiManMelee(MultiManVariant::FifteenMinute))
    } else if major == 37 && minor == 1 {
        Some(MeleeScene::MultiManMelee(MultiManVariant::Endless))
    } else if major == 38 && minor == 1 {
        Some(MeleeScene::MultiManMelee(MultiManVariant::Cruel))
    } else {
        None
    }
}

/// Tells what has to be read besides the scene bytes to know the scene.
pub fn detail_needed(major: u8, minor: u8) -> (detail: SceneDetail)
    ensures
        detail == scene_detail(major, minor),
{
    if major == 8 && (minor == 2 || minor == 0) {
        SceneDetail::OnlineMenu
    } else if major == 15 && minor == 1 {
        SceneDetail::Stage
    } else {
        SceneDetail::Nothing
    }
}

/// Decodes the scene of the pair `(major, minor)`.
pub fn decode_scene(
    major: u8,
    minor: u8,
    menu: Option<SlippiMenuScene>,
    stage: Option<MeleeStage>,
) -> (scene: Option<MeleeScene>)
    ensures
        scene == scene_of(major, minor, menu, stage),
{
    match (major, minor) {
        (2, 2) => Some(MeleeScene::VsMode),
        (43, 1) => Some(MeleeScene::UnclePunch),
        (28, 2) => Some(MeleeScene::TrainingMode),
        (8, 2) => Some(MeleeScene::SlippiOnline(menu)),
        (8, 0) => Some(MeleeScene::SlippiCss(menu)),
        (32, 1) => Some(MeleeScene::HomeRunContest),
        (15, 1) => Some(MeleeScene::TargetTest(stage)),
        (33, 1) => Some(MeleeScene::MultiManMelee(MultiManVariant::TenMan)),
        (34, 1) => Some(MeleeScene::MultiManMelee(MultiManVariant::HundredMan)),
        (35, 1) => Some(MeleeScene::MultiManMelee(MultiManVariant::ThreeMinute)),
        (36, 1) => Some(MeleeScene::MultiManMelee(MultiManVariant::FifteenMinute)),
        (37, 1) => Some(MeleeScene::MultiManMelee(MultiManVariant::Endless)),
        (38, 1) => Some(MeleeScene::MultiManMelee(MultiManVariant::Cruel)),
        _ => None,
    }
}

/// The pair of scene bytes stands for a known scene.
pub open spec fn known_scene(major: u8, minor: u8) -> bool {
    ||| major == 2 && minor == 2
    ||| major == 43 && minor == 1
    ||| major == 28 && minor == 2
    ||| major == 8 && (minor == 2 || minor == 0)
    ||| major == 32 && minor == 1
    ||| major == 15 && minor == 1
    ||| 33 <= major <= 38 && minor == 1
}

/// A pair of scene bytes has a scene exactly when it is known, whatever else
/// was read; and where the pair needs nothing else, the scene does not depend
/// on what else was read.
pub proof fn lemma_scene_known(
    major: u8,
    minor: u8,
    menu: Option<SlippiMenuScene>,
    stage: Option<MeleeStage>,
)
    ensures
        scene_of(major, minor, menu, stage) is Some <==> known_scene(major, minor),
        scene_of(2, 2, menu, stage) == Some(MeleeScene::VsMode),
        scene_of(28, 2, menu, stage) == Some(MeleeScene::TrainingMode),
        scene_detail(major, minor) == SceneDetail::Nothing ==> scene_of(major, minor, menu, stage)
            == scene_of(major, minor, None, None),
        scene_detail(major, minor) == SceneDetail::OnlineMenu ==> scene_of(
            major,
            minor,
            menu,
            stage,
        ) == scene_of(major, minor, menu, None),
        scene_detail(major, minor) == SceneDetail::Stage ==> scene_of(major, minor, menu, stage)
            == scene_of(major, minor, None, stage),
{
}

/// One line of a table of the game: a number and the name that it stands for.
#[derive(Debug)]
pub struct NamedId {
    pub id: u8,
    pub name: String,
}

/// Index of the first line of `table` at or after `from` that holds `id`.
pub open spec fn position_from(table: Seq<NamedId>, id: u8, from: int) -> Option<int>
    decreases table.len() - from,
{
    if from < 0 || from >= table.len() {
        None
    } else if table[from].id == id {
        Some(from)
    } else {
        position_from(table, id, from + 1)
    }
}

/// Index of the first line of `table` that holds `id`.
pub open spec fn position(table: Seq<NamedId>, id: u8) -> Option<int> {
    position_from(table, id, 0)
}

/// Finds the first line of `table` that holds `id`.
pub fn find_id(table: &Vec<NamedId>, id: u8) -> (found: Option<usize>)
    ensures
        found matches Some(index) ==> position(table@, id) == Some(index as int) && index
            < table@.len() && table@[index as int].id == id,
        found is None ==> position(table@, id) is None,
        found is None ==> forall|i: int| 0 <= i < table@.len() ==> table@[i].id != id,
{
    let mut i: usize = table.len();
    let mut found: Option<usize> = None;
    while i > 0
        invariant
            i <= table@.len(),
            match found {
                Some(index) => position_from(table@, id, i as int) == Some(index as int) && index
                    < table@.len() && table@[index as int].id == id,
                None => position_from(table@, id, i as int) is None,
            },
            found is None ==> forall|k: int| i <= k < table@.len() ==> table@[k].id != id,
        decreases i,
    {
        i = i - 1;
        if table[i].id == id {
            found = Some(i);
        }
    }
    found
}

/// The text that describes a scene. A target test on a stage that `stages`
/// lists is described by the name of the stage.
pub open spec fn scene_text(scene: MeleeScene, stages: Seq<NamedId>) -> Seq<char> {
    match scene {
        MeleeScene::VsMode => "Vs. Mode"@,
        MeleeScene::UnclePunch => "UnclePunch Training Mode"@,
        MeleeScene::TrainingMode => "Training Mode"@,
        MeleeScene::SlippiOnline(Some(menu)) => menu.label(),
        MeleeScene::SlippiOnline(None) => "Slippi Online"@,
        MeleeScene::SlippiCss(_) => Seq::empty(),
        MeleeScene::HomeRunContest => "Home-Run Contest"@,
        MeleeScene::TargetTest(Some(stage)) => match position(stages, stage.id) {
            Some(index) => stages[index].name@,
            None => "Target Test"@,
        },
        MeleeScene::TargetTest(None) => "Target Test"@,
        MeleeScene::MultiManMelee(MultiManVariant::TenMan) => "Multi-Man Melee (10 man)"@,
        MeleeScene::MultiManMelee(MultiManVariant::HundredMan) => "Multi-Man Melee (100 man)"@,
        MeleeScene::MultiManMelee(MultiManVariant::ThreeMinute) => "Multi-Man Melee (3 min)"@,
        MeleeScene::MultiManMelee(MultiManVariant::FifteenMinute) => "Multi-Man Melee (15 min)"@,
        MeleeScene::MultiManMelee(MultiManVariant::Endless) => "Multi-Man Melee (Endless)"@,
        MeleeScene::MultiManMelee(MultiManVariant::Cruel) => "Multi-Man Melee (Cruel)"@,
    }
}

impl MeleeScene {
    /// Describes the scene in words. The character selection screen of online
    /// play has no description.
    pub fn to_text(&self, stages: &Vec<NamedId>) -> (text: String)
        requires
            !(self is SlippiCss),
        ensures
            text@ == scene_text(*self, stages@),
    {
        match *self {
            MeleeScene::VsMode => "Vs. Mode".to_owned(),
            MeleeScene::UnclePunch => "UnclePunch Training Mode".to_owned(),
            MeleeScene::TrainingMode => "Training Mode".to_owned(),
            MeleeScene::SlippiOnline(Some(menu)) => menu.name().to_owned(),
            MeleeScene::SlippiOnline(None) => "Slippi Online".to_owned(),
            MeleeScene::SlippiCss(_) => String::new(),
            MeleeScene::HomeRunContest => "Home-Run Contest".to_owned(),
            MeleeScene::TargetTest(Some(stage)) => match find_id(stages, stage.id) {
                Some(index) => stages[index].name.clone(),
                None => "Target Test".to_owned(),
            },
            MeleeScene::TargetTest(None) => "Target Test".to_owned(),
            MeleeScene::MultiManMelee(variant) => match variant {
                MultiManVariant::TenMan => "Multi-Man Melee (10 man)".to_owned(),
                MultiManVariant::HundredMan => "Multi-Man Melee (100 man)".to_owned(),
                MultiManVariant::ThreeMinute => "Multi-Man Melee (3 min)".to_owned(),
                MultiManVariant::FifteenMinute => "Multi-Man Melee (15 min)".to_owned(),
                MultiManVariant::Endless => "Multi-Man Melee (Endless)".to_owned(),
                MultiManVariant::Cruel => "Multi-Man Melee (Cruel)".to_owned(),
            },
        }
    }
}

/// Address of the first byte of the match settings, which is the status byte
/// of the timer.
pub const MATCH_INIT: u32 = 0x8046_DB68;

/// Address of the 32-bit count of the seconds of the match.
pub const GAME_TIME: u32 = 0x8046_B6C8;

/// Address of the major scene byte.
pub const MAJOR_SCENE: u32 = 0x8047_9D30;

/// Address of the minor scene byte.
pub const MINOR_SCENE: u32 = 0x8047_9D33;

/// Address of the byte that holds the stage.
pub const STAGE_ID: u32 = 0x8049_E753;

/// Number of player ports.
pub const PORTS: u8 = 4;

/// Address of the byte that holds the character of the player at `port`
/// while a match runs: the eighth byte of the player's block.
pub open spec fn character_address(port: u8) -> u32 {
    if port == 0 {
        0x8045_3087
    } else if port == 1 {
        0x8045_3F17
    } else if port == 2 {
        0x8045_4DA7
    } else {
        0x8045_5C37
    }
}

/// Address of the byte that holds the character that the player at `port`
/// has selected: the fifth byte of the player's selection block.
pub open spec fn selection_address(port: u8) -> u32 {
    if port == 0 {
        0x8043_208F
    } else if port == 1 {
        0x8043_2097
    } else if port == 2 {
        0x8043_209F
    } else {
        0x8043_20A7
    }
}

/// The addresses that depend on the build of the game and of its online
/// play: the application supplies them.
#[derive(Clone, Copy, Debug, PartialEq, Eq, Structural)]
pub struct OnlineLayout {
    /// Address of the byte that holds the port of the local player.
    pub player_port: u32,
    /// Address of the byte that holds the menu of online play.
    pub online_menu: u32,
    /// Address at which the chain of pointers to the match state begins.
    pub match_state_pointer: u32,
    /// Number of pointers of that chain.
    pub match_state_depth: u32,
    /// Offset, in the match state, of the state of the connection.
    pub connection_state: u32,
    /// Offset of the index of the local player.
    pub local_player_index: u32,
    /// Offset of the name of the opponent.
    pub opponent_name: u32,
    /// Offsets of the connect codes of the players at the four ports.
    pub connect_code_p1: u32,
    pub connect_code_p2: u32,
    pub connect_code_p3: u32,
    pub connect_code_p4: u32,
}

impl OnlineLayout {
    /// Offset of the connect code of the player at `port`.
    pub open spec fn connect_code(self, port: u8) -> u32 {
        if port == 0 {
            self.connect_code_p1
        } else if port == 1 {
            self.connect_code_p2
        } else if port == 2 {
            self.connect_code_p3
        } else {
            self.connect_code_p4
        }
    }
}

/// Length of the name of the opponent in bytes.
pub const OPPONENT_NAME_LEN: usize = 31;

/// Length of a connect code in bytes.
pub const CONNECT_CODE_LEN: usize = 10;

/// The byte of a read, where the read gave one.
pub open spec fn byte_of(value: Result<u32, ReadError>) -> Option<u8> {
    match value {
        Ok(v) => Some(v as u8),
        Err(_) => None,
    }
}

/// The stage that the game stores as `id`, where the table lists it.
pub open spec fn stage_of(id: Option<u8>, stages: Seq<NamedId>) -> Option<MeleeStage> {
    match id {
        Some(id) => if position(stages, id) is Some {
            Some(MeleeStage { id })
        } else {
            None
        },
        None => None,
    }
}

/// The character that the game stores as `id`, where the table lists it.
pub open spec fn character_of(id: Option<u8>, characters: Seq<NamedId>) -> Option<MeleeCharacter> {
    match id {
        Some(id) => if position(characters, id) is Some {
            Some(MeleeCharacter { id })
        } else {
            None
        },
        None => None,
    }
}

/// The menu of online play of a byte that may be absent.
pub open spec fn menu_of(value: Option<u8>) -> Option<SlippiMenuScene> {
    match value {
        Some(value) => SlippiMenuScene::of_byte(value),
        None => None,
    }
}

/// The state of the connection of a byte that may be absent.
pub open spec fn matchmaking_of(value: Option<u8>) -> Option<MatchmakingMode> {
    match value {
        Some(value) => MatchmakingMode::of_byte(value),
        None => None,
    }
}

/// Address of a field of the match state at `base`, where it is a 32-bit
/// address.
pub open spec fn field_address(base: Option<u32>, offset: int) -> Option<u32> {
    match base {
        Some(base) => if 0 <= offset && base + offset <= u32::MAX {
            Some((base + offset) as u32)
        } else {
            None
        },
        None => None,
    }
}

/// Decodes the stage of a byte that was read or could not be.
pub fn decode_stage(id: Option<u8>, stages: &Vec<NamedId>) -> (stage: Option<MeleeStage>)
    ensures
        stage == stage_of(id, stages@),
{
    match id {
        Some(id) => match find_id(stages, id) {
            Some(_) => Some(MeleeStage { id }),
            None => None,
        },
        None => None,
    }
}

/// Decodes the character of a byte that was read or could not be.
pub fn decode_character(id: Option<u8>, characters: &Vec<NamedId>) -> (character: Option<
    MeleeCharacter,
>)
    ensures
        character == character_of(id, characters@),
{
    match id {
        Some(id) => match find_id(characters, id) {
            Some(_) => Some(MeleeCharacter { id }),
            None => None,
        },
        None => None,
    }
}

/// Reads the state of the game out of the emulated RAM of a session.
pub struct MeleeClient {
    mem: DolphinMemory,
    layout: OnlineLayout,
    stages: Vec<NamedId>,
    characters: Vec<NamedId>,
}

impl MeleeClient {
    /// The session that the client reads.
    pub closed spec fn memory(&self) -> DolphinMemory {
        self.mem
    }

    /// The addresses of online play.
    pub closed spec fn online_layout(&self) -> OnlineLayout {
        self.layout
    }

    /// The table of the stages.
    pub closed spec fn stage_table(&self) -> Seq<NamedId> {
        self.stages@
    }

    /// The table of the characters.
    pub closed spec fn character_table(&self) -> Seq<NamedId> {
        self.characters@
    }

    /// `copy` can be called for every read of the session.
    pub open spec fn readable<F>(&self, copy: F) -> bool where
        F: Fn(isize, usize, usize) -> CopyOutcome,
     {
        forall|host: usize, len: usize| #[trigger]
            call_requires(copy, (self.memory().handle(), host, len))
    }

    /// `byte` is what a read of the byte at `addr` may give.
    pub open spec fn byte_read<F>(&self, copy: F, addr: u32, byte: Option<u8>) -> bool where
        F: Fn(isize, usize, usize) -> CopyOutcome,
     {
        exists|value: Result<u32, ReadError>| #[trigger]
            self.memory().value_read(copy, addr, ByteSize::U8, value) && byte == byte_of(value)
    }

    /// `addr` is what the chain of pointers to the match state may give for
    /// the field at `offset`.
    pub open spec fn field_found<F>(&self, copy: F, offset: u32, addr: Option<u32>) -> bool where
        F: Fn(isize, usize, usize) -> CopyOutcome,
     {
        exists|base: Option<u32>| #[trigger]
            self.memory().chain_read(
                copy,
                self.online_layout().match_state_pointer,
                self.online_layout().match_state_depth as nat,
                base,
            ) && addr == field_address(base, offset as int)
    }

    /// `byte` is what a read of the byte at `offset` in the match state may
    /// give.
    pub open spec fn field_byte_read<F>(&self, copy: F, offset: u32, byte: Option<u8>) -> bool
        where F: Fn(isize, usize, usize) -> CopyOutcome {
        exists|addr: Option<u32>| #[trigger]
            self.field_found(copy, offset, addr) && match addr {
                Some(addr) => self.byte_read(copy, addr, byte),
                None => byte is None,
            }
    }

    /// `text` is what a read of the text at `offset` in the match state may
    /// give.
    pub open spec fn field_text_read<F>(
        &self,
        copy: F,
        offset: u32,
        len: usize,
        encoding: TextEncoding,
        text: Option<Seq<char>>,
    ) -> bool where F: Fn(isize, usize, usize) -> CopyOutcome {
        exists|addr: Option<u32>| #[trigger]
            self.field_found(copy, offset, addr) && match addr {
                Some(addr) => self.memory().text_read(copy, addr, len, encoding, text),
                None => text is None,
            }
    }

    /// `stage` is what a read of the stage may give.
    pub open spec fn stage_read<F>(&self, copy: F, stage: Option<MeleeStage>) -> bool where
        F: Fn(isize, usize, usize) -> CopyOutcome,
     {
        exists|id: Option<u8>| #[trigger]
            self.byte_read(copy, STAGE_ID, id) && stage == stage_of(id, self.stage_table())
    }

    /// `menu` is what a read of the menu of online play may give.
    pub open spec fn menu_read<F>(&self, copy: F, menu: Option<SlippiMenuScene>) -> bool where
        F: Fn(isize, usize, usize) -> CopyOutcome,
     {
        exists|value: Option<u8>| #[trigger]
            self.byte_read(copy, self.online_layout().online_menu, value) && menu == menu_of(value)
    }

    /// `scene` is what a read of the scene with the scene bytes `major` and
    /// `minor` may give: the menu of online play and the stage are read only
    /// where the scene holds one.
    pub open spec fn scene_detail_read<F>(
        &self,
        copy: F,
        major: u8,
        minor: u8,
        scene: Option<MeleeScene>,
    ) -> bool where F: Fn(isize, usize, usize) -> CopyOutcome {
        match scene_detail(major, minor) {
            SceneDetail::Nothing => scene == scene_of(major, minor, None, None),
            SceneDetail::OnlineMenu => exists|menu: Option<SlippiMenuScene>| #[trigger]
                self.menu_read(copy, menu) && scene == scene_of(major, minor, menu, None),
            SceneDetail::Stage => exists|stage: Option<MeleeStage>| #[trigger]
                self.stage_read(copy, stage) && scene == scene_of(major, minor, None, stage),
        }
    }

    /// `scene` is what a read of the scene may give. A scene byte that cannot
    /// be read counts as zero.
    pub open spec fn scene_read<F>(&self, copy: F, scene: Option<MeleeScene>) -> bool where
        F: Fn(isize, usize, usize) -> CopyOutcome,
     {
        exists|major: Option<u8>, minor: Option<u8>|
            {
                &&& #[trigger] self.byte_read(copy, MAJOR_SCENE, major)
                &&& #[trigger] self.byte_read(copy, MINOR_SCENE, minor)
                &&& self.scene_detail_read(
                    copy,
                    major.unwrap_or(0),
                    minor.unwrap_or(0),
                    scene,
                )
            }
    }

    /// Makes the client of a session, with the addresses of online play and
    /// the tables of the stages and characters of the game.
    pub fn new(
        mem: DolphinMemory,
        layout: OnlineLayout,
        stages: Vec<NamedId>,
        characters: Vec<NamedId>,
    ) -> (client: MeleeClient)
        ensures
            client.memory() == mem,
            client.online_layout() == layout,
            client.stage_table() == stages@,
            client.character_table() == characters@,
    {
        MeleeClient { mem, layout, stages, characters }
    }

    /// Gives the session back, to be ended or handed on.
    pub fn into_memory(self) -> (mem: DolphinMemory)
        ensures
            mem == self.memory(),
    {
        self.mem
    }

    /// Reads the byte at the emulated address `addr`; `None` where the read
    /// fails.
    pub fn read_byte<F>(&self, addr: u32, copy: &F) -> (byte: Option<u8>) where
        F: Fn(isize, usize, usize) -> CopyOutcome,

        requires
            self.readable(*copy),
        ensures
            self.byte_read(*copy, addr, byte),
    {
        match self.mem.read_u8(addr, copy) {
            Ok(value) => {
                assert(self.memory().value_read(*copy, addr, ByteSize::U8, Ok(value as u32)));
                Some(value)
            },
            Err(e) => {
                assert(self.memory().value_read(*copy, addr, ByteSize::U8, Err(e)));
                None
            },
        }
    }

    /// Finds the address of the field at `offset` in the match state: follows
    /// the chain of pointers to the match state and adds the offset.
    pub fn find_field<F>(&self, offset: u32, copy: &F) -> (addr: Option<u32>) where
        F: Fn(isize, usize, usize) -> CopyOutcome,

        requires
            self.readable(*copy),
        ensures
            self.field_found(*copy, offset, addr),
    {
        let base = self.mem.pointer_indirection(
            self.layout.match_state_pointer,
            self.layout.match_state_depth,
            copy,
        );
        assert(self.memory().chain_read(
            *copy,
            self.online_layout().match_state_pointer,
            self.online_layout().match_state_depth as nat,
            base,
        ));
        match base {
            Some(base) => base.checked_add(offset),
            None => None,
        }
    }

    /// Reads the byte at `offset` in the match state.
    pub fn read_field_byte<F>(&self, offset: u32, copy: &F) -> (byte: Option<u8>) where
        F: Fn(isize, usize, usize) -> CopyOutcome,

        requires
            self.readable(*copy),
        ensures
            self.field_byte_read(*copy, offset, byte),
    {
        match self.find_field(offset, copy) {
            Some(addr) => {
                let byte = self.read_byte(addr, copy);
                assert(self.field_found(*copy, offset, Some(addr)));
                byte
            },
            None => {
                assert(self.field_found(*copy, offset, None));
                None
            },
        }
    }

    /// Reads the text of `len` bytes at `offset` in the match state.
    pub fn read_field_text<F>(&self, offset: u32, len: usize, encoding: TextEncoding, copy: &F) -> (text:
        Option<String>) where F: Fn(isize, usize, usize) -> CopyOutcome
        requires
            self.readable(*copy),
        ensures
            self.field_text_read(
                *copy,
                offset,
                len,
                encoding,
                match text {
                    Some(text) => Some(text@),
                    None => None,
                },
            ),
    {
        match self.find_field(offset, copy) {
            Some(addr) => {
                let text = self.mem.read_string(addr, len, encoding, copy);
                assert(self.field_found(*copy, offset, Some(addr)));
                text
            },
            None => {
                assert(self.field_found(*copy, offset, None));
                None
            },
        }
    }

    /// Port of the local player.
    pub fn get_player_port<F>(&self, copy: &F) -> (port: Option<u8>) where
        F: Fn(isize, usize, usize) -> CopyOutcome,

        requires
            self.readable(*copy),
        ensures
            self.byte_read(*copy, self.online_layout().player_port, port),
    {
        self.read_byte(self.layout.player_port, copy)
    }

    /// Index of the local player in online play.
    pub fn get_slippi_player_port<F>(&self, copy: &F) -> (port: Option<u8>) where
        F: Fn(isize, usize, usize) -> CopyOutcome,

        requires
            self.readable(*copy),
        ensures
            self.field_byte_read(*copy, self.online_layout().local_player_index, port),
    {
        self.read_field_byte(self.layout.local_player_index, copy)
    }

    /// Name of the opponent in online play.
    pub fn get_opp_name<F>(&self, copy: &F) -> (name: Option<String>) where
        F: Fn(isize, usize, usize) -> CopyOutcome,

        requires
            self.readable(*copy),
        ensures
            self.field_text_read(
                *copy,
                self.online_layout().opponent_name,
                OPPONENT_NAME_LEN,
                TextEncoding::Utf8,
                match name {
                    Some(name) => Some(name@),
                    None => None,
                },
            ),
    {
        self.read_field_text(self.layout.opponent_name, OPPONENT_NAME_LEN, TextEncoding::Utf8, copy)
    }

    /// Connect code of the player at `port`, which the game stores in
    /// Shift-JIS. There are four ports: a higher `port` has no code.
    pub fn get_player_connect_code<F>(&self, port: u8, copy: &F) -> (code: Option<String>) where
        F: Fn(isize, usize, usize) -> CopyOutcome,

        requires
            self.readable(*copy),
        ensures
            port >= PORTS ==> code is None,
            port < PORTS ==> self.field_text_read(
                *copy,
                self.online_layout().connect_code(port),
                CONNECT_CODE_LEN,
                TextEncoding::ShiftJis,
                match code {
                    Some(code) => Some(code@),
                    None => None,
                },
            ),
    {
        let offset = match port {
            0 => self.layout.connect_code_p1,
            1 => self.layout.connect_code_p2,
            2 => self.layout.connect_code_p3,
            3 => self.layout.connect_code_p4,
            _ => {
                return None;
            },
        };
        self.read_field_text(offset, CONNECT_CODE_LEN, TextEncoding::ShiftJis, copy)
    }

    /// Character that the player at `port` has selected. There are four
    /// ports: a higher `port` has no character.
    pub fn get_character_selection<F>(&self, port: u8, copy: &F) -> (character: Option<
        MeleeCharacter,
    >) where F: Fn(isize, usize, usize) -> CopyOutcome
        requires
            self.readable(*copy),
        ensures
            port >= PORTS ==> character is None,
            port < PORTS ==> exists|id: Option<u8>| #[trigger]
                self.byte_read(*copy, selection_address(port), id) && character == character_of(
                    id,
                    self.character_table(),
                ),
    {
        let block: u32 = match port {
            0 => 0x8043_208B,
            1 => 0x8043_2093,
            2 => 0x8043_209B,
            3 => 0x8043_20A3,
            _ => {
                return None;
            },
        };
        let id = self.read_byte(block + 0x04, copy);
        assert(self.byte_read(*copy, selection_address(port), id));
        decode_character(id, &self.characters)
    }

    /// Mode of the match timer: `Countup` where the status byte cannot be
    /// read.
    pub fn timer_mode<F>(&self, copy: &F) -> (mode: TimerMode) where
        F: Fn(isize, usize, usize) -> CopyOutcome,

        requires
            self.readable(*copy),
        ensures
            exists|status: Option<u8>| #[trigger]
                self.byte_read(*copy, MATCH_INIT, status) && mode == TimerMode::of_read(status),
    {
        let status = self.read_byte(MATCH_INIT, copy);
        TimerMode::from_read(status)
    }

    /// Seconds of the match: zero where the count cannot be read.
    pub fn game_time<F>(&self, copy: &F) -> (seconds: i64) where
        F: Fn(isize, usize, usize) -> CopyOutcome,

        requires
            self.readable(*copy),
        ensures
            exists|value: Result<u32, ReadError>| #[trigger]
                self.memory().value_read(*copy, GAME_TIME, ByteSize::U32, value) && seconds
                    == match value {
                    Ok(v) => v as int,
                    Err(_) => 0,
                },
    {
        let value = self.mem.read_u32(GAME_TIME, copy);
        assert(self.memory().value_read(*copy, GAME_TIME, ByteSize::U32, value));
        match value {
            Ok(v) => v as i64,
            Err(_) => 0,
        }
    }

    /// State of the connection in online play.
    pub fn matchmaking_type<F>(&self, copy: &F) -> (mode: Option<MatchmakingMode>) where
        F: Fn(isize, usize, usize) -> CopyOutcome,

        requires
            self.readable(*copy),
        ensures
            exists|value: Option<u8>| #[trigger]
                self.field_byte_read(*copy, self.online_layout().connection_state, value) && mode
                    == matchmaking_of(value),
    {
        match self.read_field_byte(self.layout.connection_state, copy) {
            Some(value) => MatchmakingMode::from_byte(value),
            None => None,
        }
    }

    /// Menu of online play that the player is in.
    pub fn slippi_online_scene<F>(&self, copy: &F) -> (menu: Option<SlippiMenuScene>) where
        F: Fn(isize, usize, usize) -> CopyOutcome,

        requires
            self.readable(*copy),
        ensures
            self.menu_read(*copy, menu),
    {
        let value = self.read_byte(self.layout.online_menu, copy);
        assert(self.byte_read(*copy, self.online_layout().online_menu, value));
        match value {
            Some(value) => SlippiMenuScene::from_byte(value),
            None => None,
        }
    }

    /// Stage of the match.
    pub fn get_stage<F>(&self, copy: &F) -> (stage: Option<MeleeStage>) where
        F: Fn(isize, usize, usize) -> CopyOutcome,

        requires
            self.readable(*copy),
        ensures
            self.stage_read(*copy, stage),
    {
        let id = self.read_byte(STAGE_ID, copy);
        decode_stage(id, &self.stages)
    }

    /// Character of the player at `player_id` in the match. There are four
    /// ports: a higher `player_id` has no character.
    pub fn get_character<F>(&self, player_id: u8, copy: &F) -> (character: Option<
        MeleeCharacter,
    >) where F: Fn(isize, usize, usize) -> CopyOutcome
        requires
            self.readable(*copy),
        ensures
            player_id >= PORTS ==> character is None,
            player_id < PORTS ==> exists|id: Option<u8>| #[trigger]
                self.byte_read(*copy, character_address(player_id), id) && character
                    == character_of(id, self.character_table()),
    {
        let block: u32 = match player_id {
            0 => 0x8045_3080,
            1 => 0x8045_3F10,
            2 => 0x8045_4DA0,
            3 => 0x8045_5C30,
            _ => {
                return None;
            },
        };
        let id = self.read_byte(block + 0x07, copy);
        assert(self.byte_read(*copy, character_address(player_id), id));
        decode_character(id, &self.characters)
    }

    /// Scene that the game is in. The two scene bytes are read, each counting
    /// as zero where its read fails; the menu of online play or the stage is
    /// read where the scene holds one.
    pub fn get_melee_scene<F>(&self, copy: &F) -> (scene: Option<MeleeScene>) where
        F: Fn(isize, usize, usize) -> CopyOutcome,

        requires
            self.readable(*copy),
        ensures
            self.scene_read(*copy, scene),
    {
        let major_read = self.read_byte(MAJOR_SCENE, copy);
        let minor_read = self.read_byte(MINOR_SCENE, copy);
        let major = match major_read {
            Some(value) => value,
            None => 0,
        };
        let minor = match minor_read {
            Some(value) => value,
            None => 0,
        };
        let scene = match detail_needed(major, minor) {
            SceneDetail::Nothing => decode_scene(major, minor, None, None),
            SceneDetail::OnlineMenu => {
                let menu = self.slippi_online_scene(copy);
                decode_scene(major, minor, menu, None)
            },
            SceneDetail::Stage => {
                let stage = self.get_stage(copy);
                decode_scene(major, minor, None, stage)
            },
        };
        assert(self.scene_detail_read(*copy, major_read.unwrap_or(0), minor_read.unwrap_or(0), scene));
        scene
    }
}

} // verus!
