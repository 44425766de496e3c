use vstd::prelude::*;

verus! {

/// The index of the level item an entity was built from.
#[derive(Debug, Clone, Copy, PartialEq, Eq, Structural)]
pub struct LevelSource {
    pub item_index: i32,
}

/// Whether the character `(controllable, controlled)` at `i` is the one the
/// player steers: the first that is both controllable and controlled, or,
/// when there is none, the first controllable one.
pub open spec fn is_player_choice(chars: Seq<(bool, bool)>, i: int) -> bool {
    &&& 0 <= i < chars.len()
    &&& if exists|j: int| 0 <= j < chars.len() && chars[j].0 && chars[j].1 {
        chars[i].0 && chars[i].1 && forall|j: int| 0 <= j < i ==> !(chars[j].0 && chars[j].1)
    } else {
        chars[i].0 && forall|j: int| 0 <= j < i ==> !chars[j].0
    }
}

/// Finds the player among the characters, each given as
/// `(is_controllable, is_controlled)` in world order.
pub fn get_player(chars: &Vec<(bool, bool)>) -> (r: Option<usize>)
    ensures
        r is Some ==> is_player_choice(chars@, r->0 as int),
        r is None <==> forall|j: int| 0 <= j < chars@.len() ==> !chars@[j].0,
{
    let mut i: usize = 0;
    while i < chars.len()
        invariant
            i <= chars@.len(),
            forall|j: int| 0 <= j < i ==> !(chars@[j].0 && chars@[j].1),
        decreases chars.len() - i,
    {
        if chars[i].0 && chars[i].1 {
            return Some(i);
        }
        i += 1;
    }
    let mut k: usize = 0;
    while k < chars.len()
        invariant
            k <= chars@.len(),
            forall|j: int| 0 <= j < chars@.len() ==> !(chars@[j].0 && chars@[j].1),
            forall|j: int| 0 <= j < k ==> !chars@[j].0,
        decreases chars.len() - k,
    {
        if chars[k].0 {
            return Some(k);
        }
        k += 1;
    }
    None
}

/// The level item an entity was built from, or -1 for one not built from
/// the level.
pub fn get_level_source(source: Option<LevelSource>) -> (r: i32)
    ensures
        r == (match source {
            Some(s) => s.item_index,
            None => -1i32,
        }),
{
    match source {
        Some(s) => s.item_index,
        None => -1,
    }
}

/// A character steered by the player stays the player while it is
/// controllable and controlled, whatever comes after it.
pub proof fn law_controlled_player_first(chars: Seq<(bool, bool)>, i: int)
    requires
        0 <= i < chars.len(),
        chars[i].0 && chars[i].1,
        forall|j: int| 0 <= j < i ==> !(chars[j].0 && chars[j].1),
    ensures
        is_player_choice(chars, i),
{
}

} // verus!
