use vstd::prelude::*;
use crate::level::{LevelType, PlayerCharacter};

verus! {

/// A player start placed in a level: the default start, a start named after
/// a level entry, or a computer-driven cat.
#[derive(Debug, Clone)]
pub enum PlayerStart {
    Player { player: Option<PlayerCharacter> },
    PlayerNamed { player: Option<PlayerCharacter>, name: String },
    PlayerNpc { player: Option<PlayerCharacter> },
}

/// A character to build: which cat, whether the computer drives it, and
/// whether the player takes control of it.
#[derive(Debug, Clone, Copy, PartialEq, Eq, Structural)]
pub struct PlayerBuild {
    pub character: PlayerCharacter,
    pub npc: bool,
    pub controlled: bool,
}

/// Where the building of a level stands: whether a player has been built
/// yet, and the index of the next level item.
#[derive(Debug, Clone, Copy, PartialEq, Eq, Structural)]
pub struct LevelBuildState {
    pub built_player: bool,
    pub build_index: i32,
}

/// The cat of a start: the one it names, Suri otherwise.
pub open spec fn start_character(player: Option<PlayerCharacter>) -> PlayerCharacter {
    match player {
        Some(p) => p,
        None => PlayerCharacter::Suri,
    }
}

/// The character a start yields when the level is entered at `entry`, with
/// `built` telling whether a player has been built already: the default
/// start and computer-driven cats apply when the level is entered without an
/// entry name, a named start when the names match; the first player built
/// takes control.
pub open spec fn planned_player(start: PlayerStart, entry: Seq<char>, built: bool) -> Option<PlayerBuild> {
    match start {
        PlayerStart::Player { player } => if entry.len() == 0 {
            Some(PlayerBuild { character: start_character(player), npc: false, controlled: !built })
        } else {
            None
        },
        PlayerStart::PlayerNamed { player, name } => if name@ == entry {
            Some(PlayerBuild { character: start_character(player), npc: false, controlled: !built })
        } else {
            None
        },
        PlayerStart::PlayerNpc { player } => if entry.len() == 0 {
            Some(PlayerBuild { character: start_character(player), npc: true, controlled: false })
        } else {
            None
        },
    }
}

/// Whether a player has been built after a start is planned.
pub open spec fn built_after(start: PlayerStart, entry: Seq<char>, built: bool) -> bool {
    match planned_player(start, entry, built) {
        Some(b) => built || !b.npc,
        None => built,
    }
}

/// The characters the starts `starts` yield, in order, when a level is
/// built from the entry `entry`.
pub open spec fn planned_players(starts: Seq<PlayerStart>, entry: Seq<char>, built: bool) -> Seq<Option<PlayerBuild>>
    decreases starts.len(),
{
    if starts.len() == 0 {
        Seq::empty()
    } else {
        seq![planned_player(starts[0], entry, built)]
            + planned_players(starts.drop_first(), entry, built_after(starts[0], entry, built))
    }
}

/// How many of `plans` take control.
pub open spec fn controlled_count(plans: Seq<Option<PlayerBuild>>) -> nat
    decreases plans.len(),
{
    if plans.len() == 0 {
        0
    } else {
        (if plans[0] is Some && plans[0]->0.controlled { 1nat } else { 0nat })
            + controlled_count(plans.drop_first())
    }
}

/// The movement rules of a level: those it names, platform rules otherwise.
pub fn get_level_type(level_type: Option<LevelType>) -> (r: LevelType)
    ensures
        r == (match level_type {
            Some(lt) => lt,
            None => LevelType::Platformer,
        }),
{
    match level_type {
        Some(lt) => lt,
        None => LevelType::Platformer,
    }
}

impl LevelBuildState {
    /// A build that has not begun.
    pub fn new() -> (r: Self)
        ensures
            !r.built_player,
            r.build_index == 0,
    {
        LevelBuildState { built_player: false, build_index: 0 }
    }

    /// Starts building a level: no player yet, from the first item.
    pub fn start_build(&mut self)
        ensures
            !final(self).built_player,
            final(self).build_index == 0,
    {
        self.built_player = false;
        self.build_index = 0;
    }

    /// The index of the item being built; the next item gets the one after.
    pub fn next_index(&mut self) -> (r: i32)
        requires
            old(self).build_index < i32::MAX,
        ensures
            r == old(self).build_index,
            final(self).build_index == old(self).build_index + 1,
            final(self).built_player == old(self).built_player,
    {
        let r = self.build_index;
        self.build_index = self.build_index + 1;
        r
    }

    /// The character that `start` yields when the level is entered at
    /// `entry_name`; building a player one records that a player exists.
    pub fn plan_player(&mut self, start: &PlayerStart, entry_name: &String) -> (r: Option<PlayerBuild>)
        ensures
            r == planned_player(*start, entry_name@, old(self).built_player),
            final(self).built_player == built_after(*start, entry_name@, old(self).built_player),
            final(self).build_index == old(self).build_index,
    {
        let empty_entry = entry_name.as_str().unicode_len() == 0;
        match start {
            PlayerStart::Player { player } => {
                if empty_entry {
                    let character = match player {
                        Some(p) => *p,
                        None => PlayerCharacter::Suri,
                    };
                    let controlled = !self.built_player;
                    self.built_player = true;
                    Some(PlayerBuild { character, npc: false, controlled })
                } else {
                    None
                }
            },
            PlayerStart::PlayerNamed { player, name } => {
                if *name == *entry_name {
                    let character = match player {
                        Some(p) => *p,
                        None => PlayerCharacter::Suri,
                    };
                    let controlled = !self.built_player;
                    self.built_player = true;
                    Some(PlayerBuild { character, npc: false, controlled })
                } else {
                    None
                }
            },
            PlayerStart::PlayerNpc { player } => {
                if empty_entry {
                    let character = match player {
                        Some(p) => *p,
                        None => PlayerCharacter::Suri,
                    };
                    Some(PlayerBuild { character, npc: true, controlled: false })
                } else {
                    None
                }
            },
        }
    }
}

/// Building a level hands control to at most one character, and to none
/// when a player was built already.
pub proof fn law_one_controlled_player(starts: Seq<PlayerStart>, entry: Seq<char>, built: bool)
    ensures
        controlled_count(planned_players(starts, entry, built)) <= 1,
        built ==> controlled_count(planned_players(starts, entry, built)) == 0,
    decreases starts.len(),
{
    if starts.len() > 0 {
        let rest = planned_players(starts.drop_first(), entry, built_after(starts[0], entry, built));
        law_one_controlled_player(starts.drop_first(), entry, built_after(starts[0], entry, built));
        let plans = planned_players(starts, entry, built);
        assert(plans.drop_first() =~= rest);
        assert(plans[0] == planned_player(starts[0], entry, built));
    }
}

} // verus!
