use vstd::prelude::*;

verus! {

/// A press plate counts as pressed once it is pushed down to this share of
/// its travel, in thousandths, or further.
pub const PRESS_RATIO_PERMILLE: i32 = 700;

/// How far, in milliseconds, the timer of a held button runs down; reaching
/// it triggers the button.
pub const DOWN_TO_TRIGGER_MS: i64 = 200;

/// A press plate on a sliding joint. Times are in milliseconds.
#[derive(Debug, Clone)]
pub struct ButtonComponent {
    pub button_trigger: i32,
    pub is_pressed: bool,
    pub name: String,
    pub repeat_trigger: bool,
    pub trigger_cooldown_ms: i64,
    pub timer_ms: i64,
    pub triggered: bool,
}

/// The link from a triggered body back to its button.
#[derive(Debug, Clone, Copy, PartialEq, Eq, Structural)]
pub struct ButtonTriggerComponent {
    pub button: i32,
}

/// Whether a plate with the given position on its joint (its share of the
/// travel from the lower limit, in thousandths; `None` when the plate has
/// no body) is pressed.
pub open spec fn pressed_at(up_ratio_permille: Option<i32>) -> bool {
    match up_ratio_permille {
        Some(r) => r <= PRESS_RATIO_PERMILLE,
        None => false,
    }
}

impl ButtonComponent {
    /// The button after an update of `dt` milliseconds with the plate at
    /// `up_ratio_permille`: a held button runs its timer down to the trigger
    /// point and is triggered there (a one-shot button then waits out its
    /// cooldown); a released button drops its trigger, restarting the
    /// cooldown, and runs its timer down to zero.
    pub open spec fn updated(self, dt: u32, up_ratio_permille: Option<i32>) -> ButtonComponent {
        let pressed = pressed_at(up_ratio_permille);
        if pressed {
            let t: int = if self.timer_ms - dt < DOWN_TO_TRIGGER_MS { DOWN_TO_TRIGGER_MS as int } else { self.timer_ms - dt };
            if t == DOWN_TO_TRIGGER_MS {
                ButtonComponent {
                    is_pressed: true,
                    triggered: true,
                    timer_ms: if !self.repeat_trigger { self.trigger_cooldown_ms } else { t as i64 },
                    ..self
                }
            } else {
                ButtonComponent { is_pressed: true, triggered: false, timer_ms: t as i64, ..self }
            }
        } else {
            let t0 = if self.triggered { self.trigger_cooldown_ms } else { self.timer_ms };
            let t: int = if t0 > 0 { if t0 - dt < 0 { 0 } else { t0 - dt } } else { t0 as int };
            ButtonComponent { is_pressed: false, triggered: false, timer_ms: t as i64, ..self }
        }
    }
}

impl ButtonComponent {
    /// A repeating button named `name`, unlinked, with a one second
    /// cooldown.
    pub fn new(name: String) -> (r: ButtonComponent)
        ensures
            r.button_trigger == -1,
            !r.is_pressed,
            r.name@ == name@,
            r.repeat_trigger,
            r.trigger_cooldown_ms == 1000,
            r.timer_ms == 1000,
            !r.triggered,
    {
        ButtonComponent {
            button_trigger: -1,
            is_pressed: false,
            name,
            repeat_trigger: true,
            trigger_cooldown_ms: 1000,
            timer_ms: 1000,
            triggered: false,
        }
    }

    /// Whether the button is triggered.
    pub fn is_active(&self) -> (r: bool)
        ensures
            r == self.triggered,
    {
        self.triggered
    }

    /// Links the button to the body it triggers.
    pub fn set_trigger(&mut self, trigger_id: i32)
        ensures
            final(self).button_trigger == trigger_id,
            final(self).is_pressed == old(self).is_pressed,
            final(self).name == old(self).name,
            final(self).repeat_trigger == old(self).repeat_trigger,
            final(self).trigger_cooldown_ms == old(self).trigger_cooldown_ms,
            final(self).timer_ms == old(self).timer_ms,
            final(self).triggered == old(self).triggered,
    {
        self.button_trigger = trigger_id;
    }

    /// One update of `dt` milliseconds, with the plate's position on its
    /// joint in thousandths of its travel (`None` without a body).
    pub fn update(&mut self, dt: u32, up_ratio_permille: Option<i32>)
        requires
            old(self).timer_ms >= i64::MIN + u32::MAX,
            old(self).trigger_cooldown_ms >= i64::MIN + u32::MAX,
        ensures
            *final(self) == old(self).updated(dt, up_ratio_permille),
    {
        self.is_pressed = match up_ratio_permille {
            Some(r) => r <= PRESS_RATIO_PERMILLE,
            None => false,
        };
        if self.is_pressed {
            self.timer_ms = self.timer_ms - dt as i64;
            if self.timer_ms < DOWN_TO_TRIGGER_MS {
                self.timer_ms = DOWN_TO_TRIGGER_MS;
            }
            if self.timer_ms == DOWN_TO_TRIGGER_MS {
                self.triggered = true;
                if !self.repeat_trigger {
                    self.timer_ms = self.trigger_cooldown_ms;
                }
            } else {
                self.triggered = false;
            }
        } else {
            if self.triggered {
                self.triggered = false;
                self.timer_ms = self.trigger_cooldown_ms;
            }
            if self.timer_ms > 0 {
                self.timer_ms = self.timer_ms - dt as i64;
                if self.timer_ms < 0 {
                    self.timer_ms = 0;
                }
            }
        }
    }
}

impl ButtonTriggerComponent {
    /// A trigger link to no button yet.
    pub fn new() -> (r: ButtonTriggerComponent)
        ensures
            r.button == -1,
    {
        ButtonTriggerComponent { button: -1 }
    }

    /// Links to button `button_id`.
    pub fn set_button(&mut self, button_id: i32)
        ensures
            final(self).button == button_id,
    {
        self.button = button_id;
    }
}

/// A repeating button held down stays triggered, and a released button is
/// never triggered.
pub proof fn law_held_button_stays_triggered(b: ButtonComponent, dt: u32, up: Option<i32>)
    requires
        b.repeat_trigger,
        b.triggered,
        b.timer_ms == DOWN_TO_TRIGGER_MS,
    ensures
        pressed_at(up) ==> b.updated(dt, up).triggered && b.updated(dt, up).timer_ms == DOWN_TO_TRIGGER_MS,
        !pressed_at(up) ==> !b.updated(dt, up).triggered,
{
}

/// A held button triggers within `timer_ms - 200` milliseconds: one update
/// at least that long triggers it.
pub proof fn law_long_press_triggers(b: ButtonComponent, dt: u32, up: Option<i32>)
    requires
        pressed_at(up),
        b.timer_ms - dt <= DOWN_TO_TRIGGER_MS,
    ensures
        b.updated(dt, up).triggered,
        b.updated(dt, up).is_pressed,
{
}

} // verus!
