use vstd::prelude::*;
use crate::physics::{CollisionCategory, CollideType, contact_type, handle_contact};

verus! {

/// One contact of a moving body after a physics step, as the world reports
/// it: the other body's entity and layer, whether the two touch, how much
/// the contact pushes up (the floor dot product, in thousandths), and
/// whether the other entity is a switched-on portal or an exit.
#[derive(Debug, Clone, Copy)]
pub struct ContactInfo {
    pub other_id: u32,
    pub other_category: CollisionCategory,
    pub touching: bool,
    pub floor_dot_permille: i32,
    pub other_portal_enabled: bool,
    pub other_is_exit: bool,
}

/// What the contacts of one body lead to: entities to delete, the portal the
/// body enters, entities that enter the body (when it is a portal), the
/// contacts to record, the exit it stands in and whether it stands on
/// something.
#[derive(Debug, Clone)]
pub struct ContactOutcome {
    pub deletes: Vec<u32>,
    pub portal: Option<i32>,
    pub entering: Vec<u32>,
    pub body_contacts: Vec<(i32, CollideType)>,
    pub exit: Option<i32>,
    pub standing: bool,
}

/// The abstract outcome: sequences in place of vectors.
pub struct OutcomeView {
    pub deletes: Seq<u32>,
    pub portal: Option<i32>,
    pub entering: Seq<u32>,
    pub body_contacts: Seq<(i32, CollideType)>,
    pub exit: Option<i32>,
    pub standing: bool,
}

impl View for ContactOutcome {
    type V = OutcomeView;

    open spec fn view(&self) -> OutcomeView {
        OutcomeView {
            deletes: self.deletes@,
            portal: self.portal,
            entering: self.entering@,
            body_contacts: self.body_contacts@,
            exit: self.exit,
            standing: self.standing,
        }
    }
}

/// Bodies of these layers pass through portals.
pub open spec fn warps(c: CollisionCategory) -> bool {
    c == CollisionCategory::Etherial || c == CollisionCategory::Player || c == CollisionCategory::Level
}

/// The outcome after contact `c` of a body with entity `id` on layer `cat`
/// (itself a switched-on portal when `own_portal_enabled`): a touching
/// contact that pushes up more than a fifth means standing; a ghost touching
/// a meow deletes the ghost; a warping body touching a switched-on portal
/// enters it, and a warping body touching this body, when it is a
/// switched-on portal, enters this one; every contact that means something
/// is recorded; touching an exit puts the body in it.
pub open spec fn contact_step(acc: OutcomeView, id: u32, cat: CollisionCategory, own_portal_enabled: bool, c: ContactInfo) -> OutcomeView {
    if !c.touching {
        acc
    } else {
        let standing = acc.standing || c.floor_dot_permille > 200;
        let exit = if c.other_is_exit { Some(c.other_id as i32) } else { acc.exit };
        match contact_type(cat, c.other_category) {
            Some(t) => OutcomeView {
                deletes: if t == CollideType::Ghost_Meow {
                    acc.deletes.push(if cat == CollisionCategory::Etherial { id } else { c.other_id })
                } else {
                    acc.deletes
                },
                portal: if t == CollideType::Collider_Portal && warps(cat) && c.other_portal_enabled {
                    Some(c.other_id as i32)
                } else {
                    acc.portal
                },
                entering: if t == CollideType::Collider_Portal && warps(c.other_category) && own_portal_enabled {
                    acc.entering.push(c.other_id)
                } else {
                    acc.entering
                },
                body_contacts: acc.body_contacts.push((c.other_id as i32, t)),
                exit,
                standing,
            },
            None => OutcomeView { standing, exit, ..acc },
        }
    }
}

/// The outcome of all contacts `cs`, taken in order.
pub open spec fn contacts_outcome(id: u32, cat: CollisionCategory, own_portal_enabled: bool, cs: Seq<ContactInfo>) -> OutcomeView
    decreases cs.len(),
{
    if cs.len() == 0 {
        OutcomeView {
            deletes: Seq::empty(),
            portal: None,
            entering: Seq::empty(),
            body_contacts: Seq::empty(),
            exit: None,
            standing: false,
        }
    } else {
        contact_step(contacts_outcome(id, cat, own_portal_enabled, cs.drop_last()), id, cat, own_portal_enabled, cs.last())
    }
}

fn is_warping(c: CollisionCategory) -> (r: bool)
    ensures
        r == warps(c),
{
    match c {
        CollisionCategory::Etherial | CollisionCategory::Player | CollisionCategory::Level => true,
        _ => false,
    }
}

/// Goes through the contacts of the body with entity `id` on layer `cat`
/// after a physics step.
pub fn process_contacts(id: u32, cat: CollisionCategory, own_portal_enabled: bool, contacts: &Vec<ContactInfo>) -> (r: ContactOutcome)
    ensures
        r@ == contacts_outcome(id, cat, own_portal_enabled, contacts@),
{
    let mut out = ContactOutcome {
        deletes: Vec::new(),
        portal: None,
        entering: Vec::new(),
        body_contacts: Vec::new(),
        exit: None,
        standing: false,
    };
    let mut i: usize = 0;
    while i < contacts.len()
        invariant
            i <= contacts@.len(),
            out@ == contacts_outcome(id, cat, own_portal_enabled, contacts@.take(i as int)),
        decreases contacts.len() - i,
    {
        let c = contacts[i];
        assert(contacts@.take(i + 1).drop_last() =~= contacts@.take(i as int));
        assert(contacts@.take(i + 1).last() == c);
        if c.touching {
            if c.floor_dot_permille > 200 {
                out.standing = true;
            }
            if let Some(t) = handle_contact(&cat, &c.other_category) {
                if t == CollideType::Ghost_Meow {
                    if cat == CollisionCategory::Etherial {
                        out.deletes.push(id);
                    } else {
                        out.deletes.push(c.other_id);
                    }
                } else if t == CollideType::Collider_Portal {
                    if is_warping(cat) && c.other_portal_enabled {
                        out.portal = Some(c.other_id as i32);
                    }
                    if is_warping(c.other_category) && own_portal_enabled {
                        out.entering.push(c.other_id);
                    }
                }
                out.body_contacts.push((c.other_id as i32, t));
            }
            if c.other_is_exit {
                out.exit = Some(c.other_id as i32);
            }
        }
        i += 1;
    }
    assert(contacts@.take(i as int) =~= contacts@);
    out
}

/// Contacts that do not touch change nothing, and a body with no touching
/// contact does not stand.
pub proof fn law_untouched_contacts(id: u32, cat: CollisionCategory, own: bool, cs: Seq<ContactInfo>)
    requires
        forall|k: int| 0 <= k < cs.len() ==> !(#[trigger] cs[k]).touching,
    ensures
        contacts_outcome(id, cat, own, cs).deletes.len() == 0,
        contacts_outcome(id, cat, own, cs).body_contacts.len() == 0,
        !contacts_outcome(id, cat, own, cs).standing,
        contacts_outcome(id, cat, own, cs).portal is None,
        contacts_outcome(id, cat, own, cs).exit is None,
    decreases cs.len(),
{
    if cs.len() > 0 {
        assert forall|k: int| 0 <= k < cs.drop_last().len() implies !(#[trigger] cs.drop_last()[k]).touching by {
            assert(cs.drop_last()[k] == cs[k]);
        }
        law_untouched_contacts(id, cat, own, cs.drop_last());
        assert(!cs[cs.len() - 1].touching);
    }
}

} // verus!
