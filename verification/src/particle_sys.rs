use vstd::prelude::*;

verus! {

/// The switchable state of a particle system: whether it is shown and
/// emits, and whether the level's logic switches it (its emission, or its
/// visibility when `toggle_emit` is off).
#[derive(Debug, Clone, Copy, PartialEq, Eq, Structural)]
pub struct ParticleSysComponent {
    pub visible: bool,
    pub emitting: bool,
    pub toggleable: bool,
    pub toggle_emit: bool,
    pub delete_flag: bool,
    pub max_particles: usize,
}

impl ParticleSysComponent {
    /// The value the system shows to the level's logic: its emission or
    /// visibility when switchable, always on otherwise.
    pub open spec fn logic_value(self) -> bool {
        if self.toggleable {
            if self.toggle_emit { self.emitting } else { self.visible }
        } else {
            true
        }
    }

    /// A visible, emitting system that the logic does not switch, of at
    /// most 100 particles.
    pub fn new() -> (r: ParticleSysComponent)
        ensures
            r.visible,
            r.emitting,
            !r.toggleable,
            r.toggle_emit,
            !r.delete_flag,
            r.max_particles == 100,
    {
        ParticleSysComponent {
            visible: true,
            emitting: true,
            toggleable: false,
            toggle_emit: true,
            delete_flag: false,
            max_particles: 100,
        }
    }

    /// The value the system shows to the level's logic.
    pub fn get_logic_value(&self) -> (r: bool)
        ensures
            r == self.logic_value(),
    {
        if self.toggleable {
            if self.toggle_emit {
                self.emitting
            } else {
                self.visible
            }
        } else {
            true
        }
    }

    /// Switches the system from the level's logic: its emission, or its
    /// visibility; a system the logic does not switch stays as it is.
    pub fn set_logic_value(&mut self, active: bool)
        ensures
            old(self).toggleable && old(self).toggle_emit ==> *final(self) == (ParticleSysComponent { emitting: active, ..*old(self) }),
            old(self).toggleable && !old(self).toggle_emit ==> *final(self) == (ParticleSysComponent { visible: active, ..*old(self) }),
            !old(self).toggleable ==> *final(self) == *old(self),
    {
        if self.toggleable {
            if self.toggle_emit {
                self.emitting = active;
            } else {
                self.visible = active;
            }
        }
    }
}

/// What the logic sets on a switchable system is what it reads back; a
/// system it does not switch always reads as on.
pub proof fn law_logic_value_roundtrip(p: ParticleSysComponent, active: bool)
    ensures
        p.toggleable ==> (if p.toggle_emit {
            ParticleSysComponent { emitting: active, ..p }
        } else {
            ParticleSysComponent { visible: active, ..p }
        }).logic_value() == active,
        !p.toggleable ==> p.logic_value(),
{
}

} // verus!
