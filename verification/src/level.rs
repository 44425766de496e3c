use vstd::prelude::*;

use crate::logic::{ConnectionType, LogicOpType};
use crate::physics::EntityType;

verus! {

/// The movement rules a level is played with.
#[derive(Clone, Copy, Debug, PartialEq, Eq, Structural)]
pub enum LevelType {
    Platformer,
    Overhead,
    Space,
}

impl Default for LevelType {
    fn default() -> (r: Self)
        ensures
            r == LevelType::Platformer,
    {
        LevelType::Platformer
    }
}

/// Where a warp leads: a level and an entry point in it.
#[derive(Clone, Debug)]
pub struct WarpInfo {
    pub level_name: String,
    pub level_entry: String,
}

impl Default for WarpInfo {
    fn default() -> (r: Self)
        ensures
            r.level_name@ == Seq::<char>::empty(),
            r.level_entry@ == Seq::<char>::empty(),
    {
        WarpInfo { level_name: String::new(), level_entry: String::new() }
    }
}

/// What a level asks of the player before it counts as done.
#[derive(Debug)]
pub enum LevelGoals {
    UseExits,
    LogicState { key: String, logic_value: bool },
    EntityCount { entity_type: EntityType },
    AllGoals(Vec<LevelGoals>),
    OneGoal(Vec<LevelGoals>),
    NoGoal,
}

/// The logic settings a level item may carry.
#[derive(Clone, Debug)]
pub struct ItemLogic {
    pub name: String,
    pub start_enabled: bool,
    pub logic_op: Option<LogicOpType>,
    pub logic_type: Option<ConnectionType>,
}

/// The playable characters.
#[derive(Clone, Copy, Debug, PartialEq, Eq, Structural)]
pub enum PlayerCharacter {
    Suri,
    Milo,
}

} // verus!
