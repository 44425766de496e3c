use suri_sprint::menu::{
    check_selected_menu_index, close_all_menus, close_menu, get_current_menu_lvl, open_menu, open_submenu,
    Menu, MenuItem,
};

fn names(menu: &Menu) -> Vec<String> {
    menu.items
        .iter()
        .map(|item| match item {
            MenuItem::Header(h) => h.clone(),
            MenuItem::ToggleItem { key, .. } => key.clone(),
            MenuItem::RangeItem { key, .. } => key.clone(),
            MenuItem::ButtonItem { key, .. } => key.clone(),
        })
        .collect()
}

#[test]
fn new_menu_has_its_header() {
    let m = Menu::new("Title".to_string());
    assert_eq!(names(&m), vec!["Title".to_string()]);
    assert_eq!(m.selected_index, -1);
}

#[test]
fn main_menu_before_a_level() {
    let mut stack: Vec<Menu> = vec![];
    open_menu(&mut stack, &String::new());
    assert_eq!(stack.len(), 1);
    assert_eq!(names(&stack[0]), vec!["Suri Sprint", "new_game", "options", "advanced", "exit"]);
    // the header is skipped: the first button is selected
    assert_eq!(stack[0].selected_index, 1);
}

#[test]
fn main_menu_in_a_level() {
    let mut stack: Vec<Menu> = vec![Menu::new("old".to_string())];
    open_menu(&mut stack, &"level1".to_string());
    assert_eq!(stack.len(), 1);
    assert_eq!(
        names(&stack[0]),
        vec!["Suri Sprint", "resume", "restart_level", "new_game", "options", "advanced", "exit"]
    );
}

#[test]
fn main_menu_on_loading_screen() {
    let mut stack: Vec<Menu> = vec![];
    open_menu(&mut stack, &"loading".to_string());
    assert_eq!(names(&stack[0]).len(), 5);
}

#[test]
fn options_submenu_shows_volumes() {
    let mut stack: Vec<Menu> = vec![];
    open_menu(&mut stack, &String::new());
    open_submenu(&mut stack, &"options".to_string(), 45, 105);
    assert_eq!(stack.len(), 2);
    assert_eq!(get_current_menu_lvl(&stack), 1);
    match &stack[1].items[4] {
        MenuItem::RangeItem { key, value, min, max, incr, .. } => {
            assert_eq!(key, "audio_volume");
            assert_eq!((*value, *min, *max, *incr), (45, 0, 200, 5));
        }
        _ => panic!("expected the audio volume"),
    }
    match &stack[1].items[5] {
        MenuItem::RangeItem { value, .. } => assert_eq!(*value, 105),
        _ => panic!("expected the music volume"),
    }
    // the first two lines are headers: the fullscreen button is selected
    assert_eq!(stack[1].selected_index, 2);
}

#[test]
fn advanced_submenu_and_unknown_name() {
    let mut stack: Vec<Menu> = vec![];
    open_menu(&mut stack, &String::new());
    open_submenu(&mut stack, &"advanced".to_string(), 5, 5);
    assert_eq!(stack.len(), 2);
    assert_eq!(names(&stack[1]).len(), 11);
    open_submenu(&mut stack, &"nothing".to_string(), 5, 5);
    assert_eq!(stack.len(), 2);
}

#[test]
fn close_undoes_open_submenu() {
    let mut stack: Vec<Menu> = vec![];
    open_menu(&mut stack, &String::new());
    let before = names(&stack[0]);
    open_submenu(&mut stack, &"options".to_string(), 5, 5);
    close_menu(&mut stack);
    assert_eq!(stack.len(), 1);
    assert_eq!(names(&stack[0]), before);
    close_all_menus(&mut stack);
    assert!(stack.is_empty());
    assert_eq!(get_current_menu_lvl(&stack), -1);
    close_menu(&mut stack);
    assert!(stack.is_empty());
}

#[test]
fn selection_is_clamped_and_skips_headers() {
    let mut m = Menu::new("H".to_string());
    m.items.push(MenuItem::Header("H2".to_string()));
    m.items.push(MenuItem::ButtonItem { name: "B".to_string(), key: "b".to_string() });
    m.selected_index = 40;
    m.check_selected_index();
    assert_eq!(m.selected_index, 2);
    m.selected_index = -5;
    m.check_selected_index();
    assert_eq!(m.selected_index, 2);
    let mut stack = vec![m];
    stack[0].selected_index = 0;
    check_selected_menu_index(&mut stack);
    assert_eq!(stack[0].selected_index, 2);
}
