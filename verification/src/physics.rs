use vstd::prelude::*;

verus! {

/// The kind of game object a physics body belongs to.
#[derive(Copy, Clone, Debug, PartialEq, Eq, Structural)]
pub enum PickupItemType {
    Point,
}

/// The kind of game object a physics body belongs to.
#[derive(Copy, Clone, Debug, PartialEq, Eq, Structural)]
pub enum EntityType {
    Player,
    Platform,
    EmptyBox,
    GhostEntity,
    Meow,
    Portal,
    Exit,
    Button,
    PickupItem(PickupItemType),
    NoEntity,
}

impl Default for EntityType {
    fn default() -> (r: Self)
        ensures
            r == EntityType::NoEntity,
    {
        EntityType::NoEntity
    }
}


/// What two touching bodies mean to the game.
#[derive(Copy, Clone, Debug, PartialEq, Eq, Structural)]
pub enum CollideType {
    Player_Level,
    Player_Ghost,
    Player_Portal,
    Npc_Level,
    Npc_Portal,
    Collider_Portal,
    Ghost_Meow,
    Meow_Level,
    Player_Point,
    Collider_Collider,
    Other,
}

/// The collision layer a physics fixture is on. Each layer is one bit of
/// the 16-bit category and mask words of the physics engine.
#[derive(Copy, Clone, Debug, PartialEq, Eq, Structural)]
pub enum CollisionCategory {
    Level,
    Player,
    Etherial,
    Sound,
    Portal,
    Unused,
    Unused1,
    Unused2,
}

impl Default for CollisionCategory {
    fn default() -> (r: Self)
        ensures
            r == CollisionCategory::Unused,
    {
        CollisionCategory::Unused
    }
}

impl CollisionCategory {
    /// The bit position of a layer.
    pub open spec fn bit_index(self) -> u16 {
        match self {
            CollisionCategory::Level => 0,
            CollisionCategory::Player => 1,
            CollisionCategory::Etherial => 2,
            CollisionCategory::Sound => 3,
            CollisionCategory::Portal => 4,
            CollisionCategory::Unused => 5,
            CollisionCategory::Unused1 => 6,
            CollisionCategory::Unused2 => 7,
        }
    }

    /// The single bit of a layer.
    pub open spec fn bits(self) -> u16 {
        1u16 << self.bit_index()
    }
}

/// Values that have a 16-bit collision word.
pub trait CollisionBit {
    fn to_bits(&self) -> u16;
}

impl CollisionBit for CollisionCategory {
    fn to_bits(&self) -> (r: u16)
        ensures
            r == self.bits(),
    {
        let r: u16 = match self {
            CollisionCategory::Level => 1,
            CollisionCategory::Player => 2,
            CollisionCategory::Etherial => 4,
            CollisionCategory::Sound => 8,
            CollisionCategory::Portal => 16,
            CollisionCategory::Unused => 32,
            CollisionCategory::Unused1 => 64,
            CollisionCategory::Unused2 => 128,
        };
        assert(r == self.bits()) by {
            assert(1u16 << 0u16 == 1u16) by (bit_vector);
            assert(1u16 << 1u16 == 2u16) by (bit_vector);
            assert(1u16 << 2u16 == 4u16) by (bit_vector);
            assert(1u16 << 3u16 == 8u16) by (bit_vector);
            assert(1u16 << 4u16 == 16u16) by (bit_vector);
            assert(1u16 << 5u16 == 32u16) by (bit_vector);
            assert(1u16 << 6u16 == 64u16) by (bit_vector);
            assert(1u16 << 7u16 == 128u16) by (bit_vector);
        }
        r
    }
}

/// The word of a list of layers: the bits of all of them.
pub open spec fn categories_bits(s: Seq<CollisionCategory>) -> u16
    decreases s.len(),
{
    if s.len() == 0 {
        0
    } else {
        categories_bits(s.drop_last()) | s.last().bits()
    }
}

impl CollisionBit for Vec<CollisionCategory> {
    fn to_bits(&self) -> (r: u16)
        ensures
            r == categories_bits(self@),
    {
        let mut combined = 0u16;
        let n = self.len();
        let mut i: usize = 0;
        while i < n
            invariant
                i <= n,
                n == self@.len(),
                combined == categories_bits(self@.take(i as int)),
            decreases n - i,
        {
            let category = self[i];
            assert(self@.take(i + 1).drop_last() =~= self@.take(i as int));
            combined = combined | category.to_bits();
            i += 1;
        }
        assert(self@.take(n as int) =~= self@);
        combined
    }
}

/// The word of a list of layers has the bit of a layer exactly when the
/// layer is in the list.
pub proof fn law_category_bits_membership(s: Seq<CollisionCategory>, c: CollisionCategory)
    ensures
        (categories_bits(s) & c.bits() != 0) <==> s.contains(c),
    decreases s.len(),
{
    if s.len() == 0 {
        let z = categories_bits(s);
        assert(z == 0);
        assert(0u16 & c.bits() == 0) by (bit_vector);
        assert(!s.contains(c));
    } else {
        let rest = s.drop_last();
        law_category_bits_membership(rest, c);
        let a = categories_bits(rest);
        let b = s.last().bits();
        let m = c.bits();
        assert((a | b) & m != 0 <==> (a & m != 0 || b & m != 0)) by (bit_vector);
        lemma_single_bits(s.last().bit_index(), c.bit_index());
        assert(s.last().bit_index() == c.bit_index() <==> s.last() == c);
        assert(s =~= rest.push(s.last()));
        if s.contains(c) {
            let k = choose|k: int| 0 <= k < s.len() && s[k] == c;
            if k < s.len() - 1 {
                assert(rest[k] == c);
            }
        }
        if rest.contains(c) {
            let k = choose|k: int| 0 <= k < rest.len() && rest[k] == c;
            assert(s[k] == c);
        }
    }
}

/// Two single bits below the eighth overlap exactly when they are the same.
proof fn lemma_single_bits(a: u16, b: u16)
    requires
        a < 8,
        b < 8,
    ensures
        ((1u16 << a) & (1u16 << b) != 0) <==> a == b,
{
    assert(((1u16 << a) & (1u16 << b) != 0) <==> a == b) by (bit_vector)
        requires
            a < 8,
            b < 8,
    ;
}

/// What a contact between bodies on layers `c1` and `c2` means; a contact
/// with the player is read with the player first.
pub open spec fn contact_type(c1: CollisionCategory, c2: CollisionCategory) -> Option<CollideType>
    decreases (if c1 != CollisionCategory::Player && c2 == CollisionCategory::Player { 1int } else { 0int }),
{
    if c1 != CollisionCategory::Player && c2 == CollisionCategory::Player {
        contact_type(c2, c1)
    } else {
        match c1 {
            CollisionCategory::Player => match c2 {
                CollisionCategory::Portal => Some(CollideType::Collider_Portal),
                CollisionCategory::Level => Some(CollideType::Player_Level),
                _ => None,
            },
            CollisionCategory::Etherial => match c2 {
                CollisionCategory::Portal => Some(CollideType::Collider_Portal),
                CollisionCategory::Sound => Some(CollideType::Ghost_Meow),
                _ => None,
            },
            CollisionCategory::Level => match c2 {
                CollisionCategory::Portal => Some(CollideType::Collider_Portal),
                _ => None,
            },
            CollisionCategory::Portal => match c2 {
                CollisionCategory::Player => Some(CollideType::Collider_Portal),
                CollisionCategory::Etherial => Some(CollideType::Collider_Portal),
                CollisionCategory::Level => Some(CollideType::Collider_Portal),
                _ => None,
            },
            CollisionCategory::Sound => match c2 {
                CollisionCategory::Etherial => Some(CollideType::Ghost_Meow),
                _ => None,
            },
            _ => None,
        }
    }
}

/// Classifies a contact between a body on layer `coll_type_1` and one on
/// layer `coll_type_2`.
pub fn handle_contact(coll_type_1: &CollisionCategory, coll_type_2: &CollisionCategory) -> (r: Option<CollideType>)
    ensures
        r == contact_type(*coll_type_1, *coll_type_2),
    decreases (if *coll_type_1 != CollisionCategory::Player && *coll_type_2 == CollisionCategory::Player { 1int } else { 0int }),
{
    if *coll_type_1 != CollisionCategory::Player && *coll_type_2 == CollisionCategory::Player {
        return handle_contact(coll_type_2, coll_type_1);
    }
    match coll_type_1 {
        CollisionCategory::Player => match coll_type_2 {
            CollisionCategory::Portal => Some(CollideType::Collider_Portal),
            CollisionCategory::Level => Some(CollideType::Player_Level),
            _ => None,
        },
        CollisionCategory::Etherial => match coll_type_2 {
            CollisionCategory::Portal => Some(CollideType::Collider_Portal),
            CollisionCategory::Sound => Some(CollideType::Ghost_Meow),
            _ => None,
        },
        CollisionCategory::Level => match coll_type_2 {
            CollisionCategory::Portal => Some(CollideType::Collider_Portal),
            _ => None,
        },
        CollisionCategory::Portal => match coll_type_2 {
            CollisionCategory::Player => Some(CollideType::Collider_Portal),
            CollisionCategory::Etherial => Some(CollideType::Collider_Portal),
            CollisionCategory::Level => Some(CollideType::Collider_Portal),
            _ => None,
        },
        CollisionCategory::Sound => match coll_type_2 {
            CollisionCategory::Etherial => Some(CollideType::Ghost_Meow),
            _ => None,
        },
        _ => None,
    }
}

/// The classification of a contact does not depend on the order of the two
/// bodies.
pub proof fn law_contact_symmetric(c1: CollisionCategory, c2: CollisionCategory)
    ensures
        contact_type(c1, c2) == contact_type(c2, c1),
{
}

/// What the physics engine stores with each body: the entity it belongs to,
/// its layer and what kind of entity it is.
#[derive(Copy, Clone, Debug, PartialEq, Eq, Structural)]
pub struct GameStateBodyData {
    pub entity_id: u32,
    pub collider_type: CollisionCategory,
    pub entity_type: EntityType,
}

impl Default for GameStateBodyData {
    fn default() -> (r: Self)
        ensures
            r == (GameStateBodyData {
                entity_id: 0,
                collider_type: CollisionCategory::Unused,
                entity_type: EntityType::NoEntity,
            }),
    {
        GameStateBodyData {
            entity_id: 0,
            collider_type: CollisionCategory::Unused,
            entity_type: EntityType::NoEntity,
        }
    }
}

/// The contact rules between entity kinds.
#[derive(Debug)]
pub struct ContactFilterConfig {
    pub ghost_player_contact: bool,
}

/// Whether entities of kinds `a` and `b` may touch: ghosts never touch
/// buttons, and ghosts touch the player only when `ghost_player_contact`.
pub open spec fn entities_collide(ghost_player_contact: bool, a: EntityType, b: EntityType) -> bool {
    match a {
        EntityType::Button => match b {
            EntityType::GhostEntity => false,
            _ => true,
        },
        EntityType::GhostEntity => match b {
            EntityType::Player => ghost_player_contact,
            EntityType::Button => false,
            _ => true,
        },
        EntityType::Player => match b {
            EntityType::GhostEntity => ghost_player_contact,
            _ => true,
        },
        _ => true,
    }
}

impl ContactFilterConfig {
    pub fn new(ghost_player_contact: bool) -> (r: Self)
        ensures
            r.ghost_player_contact == ghost_player_contact,
    {
        Self { ghost_player_contact: ghost_player_contact }
    }

    /// Decides a contact between fixture A of entity kind `a_type` and
    /// fixture B of kind `b_type` from their category and mask words: the
    /// categories must meet B's mask and the entity kinds must be allowed
    /// to touch.
    pub fn should_collide(&self, a_type: EntityType, b_type: EntityType, fixt_a_cat: u16, fixt_b_cat: u16, fixt_b_mask: u16) -> (r: bool)
        ensures
            r == (((fixt_a_cat & fixt_b_mask) | (fixt_b_cat & fixt_b_mask)) > 0 && entities_collide(
                self.ghost_player_contact,
                a_type,
                b_type,
            )),
    {
        let cat_mask_match = (fixt_a_cat & fixt_b_mask) | (fixt_b_cat & fixt_b_mask);
        let collide = match a_type {
            EntityType::Button => match b_type {
                EntityType::GhostEntity => false,
                EntityType::Platform => true,
                _ => true,
            },
            EntityType::Platform => match b_type {
                EntityType::Button => true,
                _ => true,
            },
            EntityType::GhostEntity => match b_type {
                EntityType::Player => self.ghost_player_contact,
                EntityType::Button => false,
                _ => true,
            },
            EntityType::Player => match b_type {
                EntityType::GhostEntity => self.ghost_player_contact,
                _ => true,
            },
            _ => true,
        };
        cat_mask_match > 0 && collide
    }
}

/// The entity-kind rule of the contact filter is symmetric.
pub proof fn law_entity_rule_symmetric(g: bool, a: EntityType, b: EntityType)
    ensures
        entities_collide(g, a, b) == entities_collide(g, b, a),
{
}

} // verus!
