use vstd::prelude::*;

use crate::level::ItemLogic;

verus! {

/// How a logic connection passes its signal along.
#[derive(Debug, Clone, Copy, PartialEq, Eq, Structural)]
pub enum ConnectionType {
    SwitchOnce,
    Switch,
    NotSwitch,
}

impl Default for ConnectionType {
    fn default() -> (r: Self)
        ensures
            r == ConnectionType::Switch,
    {
        ConnectionType::Switch
    }
}

/// How several inputs of a logic node are combined.
#[derive(Debug, Clone, Copy, PartialEq, Eq, Structural)]
pub enum LogicOpType {
    And,
    Or,
    Odd,
    Even,
}

impl Default for LogicOpType {
    fn default() -> (r: Self)
        ensures
            r == LogicOpType::And,
    {
        LogicOpType::And
    }
}

/// A named link from one logic node to another.
#[derive(Debug)]
pub struct LogicConnection {
    pub from: String,
    pub to: String,
    pub conn_type: ConnectionType,
}

impl LogicConnection {
    pub fn new(frm: String, t: String, cntype: ConnectionType) -> (r: LogicConnection)
        ensures
            r.from == frm,
            r.to == t,
            r.conn_type == cntype,
    {
        LogicConnection { from: frm, to: t, conn_type: cntype }
    }
}

/// The output a logic node computes: its base value, flipped once by a
/// `true` external input and once more while the node itself is active.
pub open spec fn logic_output(initial: bool, input: Option<bool>, active: bool) -> bool {
    let flipped_by_input = input == Some(true);
    (initial != flipped_by_input) != active
}

/// A switchable node of the level logic (buttons, toggled platforms, portals).
#[derive(Debug)]
pub struct LogicComponent {
    pub id: String,
    pub initial_value: bool,
    pub logic_op: LogicOpType,
    pub logic_type: ConnectionType,
    pub input_value: Option<bool>,
    pub is_active: bool,
    pub value: bool,
    pub last_value: bool,
    pub last_input: Option<bool>,
    pub last_active: bool,
    pub change_count: i32,
    pub frozen: bool,
}

impl LogicComponent {
    /// The node's value agrees with its inputs.
    pub open spec fn consistent(&self) -> bool {
        self.value == logic_output(self.initial_value, self.input_value, self.is_active)
    }

    pub fn new(id: String, is_enabled: bool, logic_op_opt: Option<LogicOpType>) -> (r: LogicComponent)
        ensures
            r.id == id,
            r.initial_value == is_enabled,
            r.logic_op == (match logic_op_opt {
                Some(op) => op,
                None => LogicOpType::And,
            }),
            r.logic_type == ConnectionType::Switch,
            r.input_value == None::<bool>,
            r.value == is_enabled,
            !r.is_active,
            r.last_value == is_enabled,
            !r.last_active,
            r.last_input == None::<bool>,
            r.change_count == 0,
            !r.frozen,
            r.consistent(),
    {
        LogicComponent {
            id: id,
            initial_value: is_enabled,
            logic_op: match logic_op_opt {
                Some(logic_op_val) => logic_op_val,
                _ => LogicOpType::And,
            },
            logic_type: ConnectionType::Switch,
            input_value: None,
            value: is_enabled,
            is_active: false,
            last_value: is_enabled,
            last_active: false,
            last_input: None,
            change_count: 0,
            frozen: false,
        }
    }

    pub fn new_logic(id: String, is_enabled: bool, logic_opt: Option<ItemLogic>) -> (r: LogicComponent)
        ensures
            r.id == id,
            r.initial_value == is_enabled,
            r.logic_op == (match logic_opt {
                Some(l) => match l.logic_op {
                    Some(op) => op,
                    None => LogicOpType::And,
                },
                None => LogicOpType::And,
            }),
            r.logic_type == (match logic_opt {
                Some(l) => match l.logic_type {
                    Some(t) => t,
                    None => ConnectionType::Switch,
                },
                None => ConnectionType::Switch,
            }),
            r.input_value == None::<bool>,
            r.value == is_enabled,
            !r.is_active,
            r.last_value == is_enabled,
            !r.last_active,
            r.last_input == None::<bool>,
            r.change_count == 0,
            !r.frozen,
            r.consistent(),
    {
        LogicComponent {
            id: id,
            initial_value: is_enabled,
            logic_op: match &logic_opt {
                Some(logic) => match &logic.logic_op {
                    Some(logic_op_value) => *logic_op_value,
                    _ => LogicOpType::And,
                },
                _ => LogicOpType::And,
            },
            logic_type: match &logic_opt {
                Some(logic) => match &logic.logic_type {
                    Some(logic_type_value) => *logic_type_value,
                    _ => ConnectionType::Switch,
                },
                _ => ConnectionType::Switch,
            },
            input_value: None,
            value: is_enabled,
            is_active: false,
            last_value: is_enabled,
            last_active: false,
            last_input: None,
            change_count: 0,
            frozen: false,
        }
    }

    pub fn clear_input(&mut self)
        ensures
            *final(self) == (LogicComponent { input_value: None, ..*old(self) }),
    {
        self.input_value = None;
    }

    pub fn calc_value(&mut self)
        ensures
            *final(self) == (LogicComponent {
                value: logic_output(old(self).initial_value, old(self).input_value, old(self).is_active),
                ..*old(self)
            }),
            final(self).consistent(),
    {
        let mut calc_val = self.initial_value;
        if let Some(input) = self.input_value {
            if input {
                calc_val = !calc_val;
            }
        }
        if self.is_active {
            calc_val = !calc_val;
        }
        self.value = calc_val;
    }

    pub fn set_active(&mut self, active: bool)
        ensures
            *final(self) == (LogicComponent {
                is_active: active,
                value: logic_output(old(self).initial_value, old(self).input_value, active),
                ..*old(self)
            }),
            final(self).consistent(),
    {
        self.is_active = active;
        self.calc_value();
    }

    pub fn set_input_value(&mut self, input_value: bool) -> (r: bool)
        ensures
            *final(self) == (LogicComponent {
                input_value: Some(input_value),
                value: logic_output(old(self).initial_value, Some(input_value), old(self).is_active),
                ..*old(self)
            }),
            r == final(self).value,
            final(self).consistent(),
    {
        self.input_value = Some(input_value);
        self.calc_value();
        self.value
    }

    /// Records one frame: counts how many frames in a row the value has
    /// changed, and remembers the current value for the next frame.
    pub fn update(&mut self)
        requires
            old(self).last_value != old(self).value ==> old(self).change_count < i32::MAX,
        ensures
            *final(self) == (LogicComponent {
                change_count: if old(self).last_value != old(self).value {
                    (old(self).change_count + 1) as i32
                } else {
                    0i32
                },
                last_value: old(self).value,
                ..*old(self)
            }),
    {
        if self.last_value != self.value {
            self.change_count += 1;
        } else {
            self.change_count = 0;
        }
        self.last_value = self.value;
    }
}

/// The value of a logic node depends only on its base value, its input and
/// whether it is active: setting the same input twice changes nothing more,
/// and activating then deactivating a node restores its value.
pub proof fn law_logic_toggle_roundtrip(c: LogicComponent, b: bool)
    requires
        c.consistent(),
    ensures
        logic_output(c.initial_value, c.input_value, !c.is_active) != c.value,
        logic_output(c.initial_value, c.input_value, c.is_active) == c.value,
        logic_output(c.initial_value, Some(b), c.is_active) == logic_output(
            c.initial_value,
            Some(b),
            c.is_active,
        ),
        logic_output(c.initial_value, Some(false), c.is_active) == logic_output(
            c.initial_value,
            None,
            c.is_active,
        ),
{
}

} // verus!
