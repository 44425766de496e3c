use vstd::prelude::*;

verus! {

/// How a dialog is shown.
#[derive(Clone, Copy, Debug, PartialEq, Eq, Structural)]
pub enum DialogType {
    LevelEntry,
    DialogInfo,
    DialogChoices,
    WorldDialog,
    WorldChoices,
}

/// One answer of a dialog: its text and the key it reports.
#[derive(Clone, Debug)]
pub struct DialogChoice {
    pub message: String,
    pub key: String,
}

/// One line of a menu. Range values are in hundredths: `value: 105` stands
/// for 1.05.
#[derive(Clone, Debug)]
pub enum MenuItem {
    Header(String),
    ToggleItem { name: String, key: String, value: bool },
    RangeItem { name: String, key: String, min: i32, max: i32, incr: i32, value: i32 },
    ButtonItem { name: String, key: String },
}

/// A menu line with its texts as character sequences.
pub enum MenuItemView {
    Header(Seq<char>),
    ToggleItem { name: Seq<char>, key: Seq<char>, value: bool },
    RangeItem { name: Seq<char>, key: Seq<char>, min: i32, max: i32, incr: i32, value: i32 },
    ButtonItem { name: Seq<char>, key: Seq<char> },
}

impl View for MenuItem {
    type V = MenuItemView;

    open spec fn view(&self) -> MenuItemView {
        match self {
            MenuItem::Header(h) => MenuItemView::Header(h@),
            MenuItem::ToggleItem { name, key, value } => MenuItemView::ToggleItem {
                name: name@,
                key: key@,
                value: *value,
            },
            MenuItem::RangeItem { name, key, min, max, incr, value } => MenuItemView::RangeItem {
                name: name@,
                key: key@,
                min: *min,
                max: *max,
                incr: *incr,
                value: *value,
            },
            MenuItem::ButtonItem { name, key } => MenuItemView::ButtonItem { name: name@, key: key@ },
        }
    }
}

/// A menu: its lines and the selected line (`-1` before any is selected).
#[derive(Clone, Debug)]
pub struct Menu {
    pub items: Vec<MenuItem>,
    pub selected_index: i32,
}

/// A menu with its lines by their views.
pub struct MenuView {
    pub items: Seq<MenuItemView>,
    pub selected_index: i32,
}

impl View for Menu {
    type V = MenuView;

    open spec fn view(&self) -> MenuView {
        MenuView { items: self.items@.map_values(|item: MenuItem| item@), selected_index: self.selected_index }
    }
}

/// The views of a stack of menus, bottom first.
pub open spec fn stack_view(stack: Seq<Menu>) -> Seq<MenuView> {
    stack.map_values(|m: Menu| m@)
}

/// A selection brought into `0..count` (or `-1` for an empty menu).
pub open spec fn clamp_selection(sel: int, count: int) -> int {
    if sel < 0 && count > 0 {
        0
    } else if sel + 1 >= count {
        count - 1
    } else {
        sel
    }
}

/// Walks the lines from `k` on; a header that is selected passes the
/// selection to the next line, unless it is the last line.
pub open spec fn skip_headers(items: Seq<MenuItemView>, k: int, sel: int) -> int
    decreases items.len() - k,
{
    if k >= items.len() {
        sel
    } else {
        let next = if k == sel && items[k] is Header && sel + 1 < items.len() {
            sel + 1
        } else {
            sel
        };
        skip_headers(items, k + 1, next)
    }
}

/// The selection a menu ends with once it is checked: in range, and past
/// any headers.
pub open spec fn checked_selection(items: Seq<MenuItemView>, sel: int) -> int {
    skip_headers(items, 0, clamp_selection(sel, items.len() as int))
}

impl Menu {
    pub fn new(header_name: String) -> (r: Menu)
        ensures
            r@.items == seq![MenuItemView::Header(header_name@)],
            r.selected_index == -1,
    {
        let r = Menu { items: vec![MenuItem::Header(header_name)], selected_index: -1 };
        assert(r@.items =~= seq![MenuItemView::Header(header_name@)]);
        r
    }

    /// Brings the selection into range and off any header line.
    pub fn check_selected_index(&mut self)
        requires
            old(self).items.len() < i32::MAX,
            old(self).selected_index < i32::MAX,
        ensures
            final(self)@.items == old(self)@.items,
            final(self).selected_index == checked_selection(old(self)@.items, old(self).selected_index as int),
    {
        let mut sel_index = self.selected_index;
        let item_count = self.items.len();
        let count = item_count as i32;
        if sel_index < 0 && item_count > 0 {
            sel_index = 0;
        } else if sel_index + 1 >= count {
            sel_index = count - 1;
        }
        let ghost items = self@.items;
        let mut item_index: usize = 0;
        while item_index < item_count
            invariant
                item_index <= item_count,
                item_count == self.items.len(),
                count == item_count,
                items == self@.items,
                item_count < i32::MAX,
                sel_index < i32::MAX,
                skip_headers(items, 0, clamp_selection(old(self).selected_index as int, count as int))
                    == skip_headers(items, item_index as int, sel_index as int),
            decreases item_count - item_index,
        {
            if item_index as i32 == sel_index {
                let is_header = match &self.items[item_index] {
                    MenuItem::Header(_) => true,
                    _ => false,
                };
                assert(is_header == (items[item_index as int] is Header));
                if is_header {
                    if sel_index + 1 < count {
                        sel_index += 1;
                    }
                }
            }
            item_index += 1;
        }
        self.selected_index = sel_index;
    }
}

/// The checked selection is a line of the menu, and it is on a header only
/// when every line from the first checked position to the end is a header.
pub proof fn law_checked_selection_in_range(items: Seq<MenuItemView>, sel: int)
    requires
        items.len() > 0,
    ensures
        0 <= checked_selection(items, sel) < items.len(),
        items[checked_selection(items, sel)] is Header ==> checked_selection(items, sel) == items.len() - 1,
        forall|j: int|
            clamp_selection(sel, items.len() as int) <= j < checked_selection(items, sel) ==> #[trigger] items[j] is Header,
{
    lemma_skip_headers(items, 0, clamp_selection(sel, items.len() as int));
}

proof fn lemma_skip_headers(items: Seq<MenuItemView>, k: int, sel: int)
    requires
        0 <= k <= items.len(),
        0 <= sel < items.len(),
        k <= sel,
    ensures
        sel <= skip_headers(items, k, sel) < items.len(),
        items[skip_headers(items, k, sel)] is Header ==> skip_headers(items, k, sel) == items.len() - 1,
        forall|j: int| sel <= j < skip_headers(items, k, sel) ==> #[trigger] items[j] is Header,
    decreases items.len() - k,
{
    if k < items.len() {
        if k == sel && items[k] is Header && sel + 1 < items.len() {
            lemma_skip_headers(items, k + 1, sel + 1);
        } else if k == sel {
            lemma_skip_headers_idle(items, k + 1, sel);
        } else {
            lemma_skip_headers(items, k + 1, sel);
        }
    }
}

/// Once the walk has passed the selection, it does not move any more.
proof fn lemma_skip_headers_idle(items: Seq<MenuItemView>, k: int, sel: int)
    requires
        sel < k,
    ensures
        skip_headers(items, k, sel) == sel,
    decreases items.len() - k,
{
    if k < items.len() {
        lemma_skip_headers_idle(items, k + 1, sel);
    }
}

/// The level of the top menu, `-1` when no menu is open.
pub fn get_current_menu_lvl(menu_stack: &Vec<Menu>) -> (r: i32)
    requires
        menu_stack.len() <= i32::MAX,
    ensures
        r == menu_stack.len() - 1,
{
    if menu_stack.len() > 0 {
        menu_stack.len() as i32 - 1
    } else {
        -1
    }
}

/// Checks the selection of the top menu, if any.
pub fn check_selected_menu_index(menu_stack: &mut Vec<Menu>)
    requires
        old(menu_stack).len() > 0 ==> old(menu_stack)@.last().items.len() < i32::MAX,
        old(menu_stack).len() > 0 ==> old(menu_stack)@.last().selected_index < i32::MAX,
    ensures
        final(menu_stack).len() == old(menu_stack).len(),
        old(menu_stack).len() > 0 ==> {
            &&& stack_view(final(menu_stack)@.drop_last()) == stack_view(old(menu_stack)@.drop_last())
            &&& final(menu_stack)@.last()@.items == old(menu_stack)@.last()@.items
            &&& final(menu_stack)@.last().selected_index == checked_selection(
                old(menu_stack)@.last()@.items,
                old(menu_stack)@.last().selected_index as int,
            )
        },
        old(menu_stack).len() == 0 ==> final(menu_stack)@ == old(menu_stack)@,
{
    if menu_stack.len() > 0 {
        let mut curr_menu = menu_stack.pop().unwrap();
        curr_menu.check_selected_index();
        menu_stack.push(curr_menu);
        assert(menu_stack@.drop_last() =~= old(menu_stack)@.drop_last());
    }
}

pub fn close_all_menus(menu_stack: &mut Vec<Menu>)
    ensures
        final(menu_stack)@.len() == 0,
{
    menu_stack.clear();
}

/// Closes the top menu, if any.
pub fn close_menu(menu_stack: &mut Vec<Menu>)
    ensures
        stack_view(final(menu_stack)@) == close_effect(stack_view(old(menu_stack)@)),
        final(menu_stack)@ == (if old(menu_stack)@.len() > 0 {
            old(menu_stack)@.drop_last()
        } else {
            old(menu_stack)@
        }),
{
    if menu_stack.len() > 0 {
        menu_stack.pop();
    }
}


/// A button line.
pub open spec fn button_view(name: Seq<char>, key: Seq<char>) -> MenuItemView {
    MenuItemView::ButtonItem { name, key }
}

/// A toggle line.
pub open spec fn toggle_view(name: Seq<char>, key: Seq<char>, value: bool) -> MenuItemView {
    MenuItemView::ToggleItem { name, key, value }
}

/// A range line, in hundredths.
pub open spec fn range_view(name: Seq<char>, key: Seq<char>, value: i32, min: i32, max: i32, incr: i32) -> MenuItemView {
    MenuItemView::RangeItem { name, key, min, max, incr, value }
}

/// The lines of the main menu; the first two buttons only while a level is
/// being played.
pub open spec fn main_menu_items(in_level: bool) -> Seq<MenuItemView> {
    seq![MenuItemView::Header("Suri Sprint"@)] + (if in_level {
        seq![button_view("Resume Game"@, "resume"@), button_view("Restart Level"@, "restart_level"@)]
    } else {
        Seq::empty()
    }) + seq![
        button_view("New Game"@, "new_game"@),
        button_view("Options..."@, "options"@),
        button_view("Advanced..."@, "advanced"@),
        button_view("Exit Game"@, "exit"@),
    ]
}

/// The lines of the options menu, with the current volumes in hundredths.
pub open spec fn options_menu_items(sfx_volume: i32, music_volume: i32) -> Seq<MenuItemView> {
    seq![
        MenuItemView::Header("Options Menu"@),
        MenuItemView::Header("Display"@),
        button_view("Toggle Fullscreen"@, "fullscreen"@),
        MenuItemView::Header("Audio"@),
        range_view("Audio Volume"@, "audio_volume"@, sfx_volume, 0, 200, 5),
        range_view("Music Volume"@, "music_volume"@, music_volume, 0, 200, 5),
        button_view("Close"@, "close_menu"@),
    ]
}

/// The lines of the advanced menu.
pub open spec fn advanced_menu_items() -> Seq<MenuItemView> {
    seq![
        MenuItemView::Header("Advanced Menu"@),
        MenuItemView::Header("Output Gobbaldygook To Console"@),
        toggle_view("Debug Logic"@, "debug_logic"@, false),
        toggle_view("Debug Physics Contacts"@, "debug_contacts"@, false),
        toggle_view("Debug Systems"@, "debug_systems"@, true),
        toggle_view("Debug Raycasts"@, "debug_raycasts"@, false),
        MenuItemView::Header("Engine Levers"@),
        range_view("Time Multiplier"@, "time_multiplier"@, 100, 10, 200, 5),
        range_view("Gravity Multiplier"@, "gravity_multiplier"@, 100, 10, 200, 5),
        range_view("Suri Standard Mass"@, "suri_mass_multiplier"@, 100, 10, 200, 5),
        button_view("Close"@, "close_menu"@),
    ]
}

/// A menu as it is opened: its selection checked from `-1`.
pub open spec fn opened_menu(items: Seq<MenuItemView>) -> MenuView {
    MenuView { items, selected_index: checked_selection(items, -1) as i32 }
}

/// The submenu a name opens, if any.
pub open spec fn submenu_items(name: Seq<char>, sfx_volume: i32, music_volume: i32) -> Option<Seq<MenuItemView>> {
    if name == "options"@ {
        Some(options_menu_items(sfx_volume, music_volume))
    } else if name == "advanced"@ {
        Some(advanced_menu_items())
    } else {
        None
    }
}

/// The menus after a submenu is opened by name.
pub open spec fn open_submenu_effect(stack: Seq<MenuView>, name: Seq<char>, sfx_volume: i32, music_volume: i32) -> Seq<MenuView> {
    match submenu_items(name, sfx_volume, music_volume) {
        Some(items) => stack.push(opened_menu(items)),
        None => stack,
    }
}

/// The menus after the top one is closed.
pub open spec fn close_effect(stack: Seq<MenuView>) -> Seq<MenuView> {
    if stack.len() > 0 {
        stack.drop_last()
    } else {
        stack
    }
}

fn string_of(s: &str) -> (r: String)
    ensures
        r@ == s@,
{
    s.to_owned()
}

fn header_item(name: &str) -> (r: MenuItem)
    ensures
        r@ == MenuItemView::Header(name@),
{
    MenuItem::Header(string_of(name))
}

fn button_item(name: &str, key: &str) -> (r: MenuItem)
    ensures
        r@ == button_view(name@, key@),
{
    MenuItem::ButtonItem { name: string_of(name), key: string_of(key) }
}

fn toggle_item(name: &str, key: &str, value: bool) -> (r: MenuItem)
    ensures
        r@ == toggle_view(name@, key@, value),
{
    MenuItem::ToggleItem { name: string_of(name), key: string_of(key), value }
}

fn range_item(name: &str, key: &str, value: i32, min: i32, max: i32, incr: i32) -> (r: MenuItem)
    ensures
        r@ == range_view(name@, key@, value, min, max, incr),
{
    MenuItem::RangeItem { name: string_of(name), key: string_of(key), min, max, incr, value }
}

/// Opens a menu made of `items` on top of the stack.
fn push_opened(menu_stack: &mut Vec<Menu>, items: Vec<MenuItem>)
    requires
        items.len() < i32::MAX,
    ensures
        stack_view(final(menu_stack)@) == stack_view(old(menu_stack)@).push(
            opened_menu(items@.map_values(|item: MenuItem| item@)),
        ),
{
    let ghost before = menu_stack@;
    let new_menu = Menu { items, selected_index: -1 };
    menu_stack.push(new_menu);
    check_selected_menu_index(menu_stack);
    assert(stack_view(menu_stack@) =~= stack_view(before).push(
        opened_menu(items@.map_values(|item: MenuItem| item@)),
    )) by {
        assert(menu_stack@.drop_last().len() == before.len());
        assert forall|i: int| 0 <= i < before.len() implies #[trigger] stack_view(menu_stack@)[i] == stack_view(
            before,
        )[i] by {
            assert(stack_view(menu_stack@.drop_last())[i] == stack_view(menu_stack@)[i]);
        }
    }
}

/// Replaces all menus by the main menu. `current_level_name` is the level
/// being played: empty before any level, `loading` on the loading screen.
pub fn open_menu(menu_stack: &mut Vec<Menu>, current_level_name: &String)
    ensures
        stack_view(final(menu_stack)@) == seq![
            opened_menu(main_menu_items(current_level_name@ != "loading"@ && current_level_name@.len() > 0)),
        ],
{
    menu_stack.clear();
    let ghost in_level = current_level_name@ != "loading"@ && current_level_name@.len() > 0;
    let mut items: Vec<MenuItem> = Vec::new();
    items.push(header_item("Suri Sprint"));
    let loading = string_of("loading");
    let is_loading = *current_level_name == loading;
    if !is_loading && !current_level_name.as_str().is_empty() {
        items.push(button_item("Resume Game", "resume"));
        items.push(button_item("Restart Level", "restart_level"));
    }
    items.push(button_item("New Game", "new_game"));
    items.push(button_item("Options...", "options"));
    items.push(button_item("Advanced...", "advanced"));
    items.push(button_item("Exit Game", "exit"));
    assert(items@.map_values(|item: MenuItem| item@) =~= main_menu_items(in_level));
    push_opened(menu_stack, items);
    assert(stack_view(menu_stack@) =~= seq![opened_menu(main_menu_items(in_level))]);
}

/// Opens the submenu named `menu_name` (`options` or `advanced`) on top of
/// the current menus; other names open nothing. The volumes shown in the
/// options menu are in hundredths.
pub fn open_submenu(menu_stack: &mut Vec<Menu>, menu_name: &String, sfx_volume: i32, music_volume: i32)
    ensures
        stack_view(final(menu_stack)@) == open_submenu_effect(
            stack_view(old(menu_stack)@),
            menu_name@,
            sfx_volume,
            music_volume,
        ),
{
    let options = string_of("options");
    let advanced = string_of("advanced");
    if *menu_name == options {
        let mut items: Vec<MenuItem> = Vec::new();
        items.push(header_item("Options Menu"));
        items.push(header_item("Display"));
        items.push(button_item("Toggle Fullscreen", "fullscreen"));
        items.push(header_item("Audio"));
        items.push(range_item("Audio Volume", "audio_volume", sfx_volume, 0, 200, 5));
        items.push(range_item("Music Volume", "music_volume", music_volume, 0, 200, 5));
        items.push(button_item("Close", "close_menu"));
        assert(items@.map_values(|item: MenuItem| item@) =~= options_menu_items(sfx_volume, music_volume));
        push_opened(menu_stack, items);
    } else if *menu_name == advanced {
        let mut items: Vec<MenuItem> = Vec::new();
        items.push(header_item("Advanced Menu"));
        items.push(header_item("Output Gobbaldygook To Console"));
        items.push(toggle_item("Debug Logic", "debug_logic", false));
        items.push(toggle_item("Debug Physics Contacts", "debug_contacts", false));
        items.push(toggle_item("Debug Systems", "debug_systems", true));
        items.push(toggle_item("Debug Raycasts", "debug_raycasts", false));
        items.push(header_item("Engine Levers"));
        items.push(range_item("Time Multiplier", "time_multiplier", 100, 10, 200, 5));
        items.push(range_item("Gravity Multiplier", "gravity_multiplier", 100, 10, 200, 5));
        items.push(range_item("Suri Standard Mass", "suri_mass_multiplier", 100, 10, 200, 5));
        items.push(button_item("Close", "close_menu"));
        assert(items@.map_values(|item: MenuItem| item@) =~= advanced_menu_items());
        push_opened(menu_stack, items);
    }
}

/// Closing the submenu just opened returns to the menus that were open
/// before.
pub proof fn law_close_undoes_open_submenu(stack: Seq<MenuView>, name: Seq<char>, sfx_volume: i32, music_volume: i32)
    requires
        submenu_items(name, sfx_volume, music_volume) is Some,
    ensures
        close_effect(open_submenu_effect(stack, name, sfx_volume, music_volume)) == stack,
{
    assert(close_effect(open_submenu_effect(stack, name, sfx_volume, music_volume)) =~= stack);
}

} // verus!
