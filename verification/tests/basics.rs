use webtale::input::{close_action, global_input_actions, CloseAction, GlobalKeys};
use webtale::names::NameMap;
use webtale::text::{
    ends_with, has_char, i64_to_decimal, owned, starts_with, str_eq, str_lt,
    take_chars, u64_to_decimal,
};

fn keys() -> GlobalKeys {
    GlobalKeys {
        escape_pressed: false,
        alt_held: false,
        enter_pressed: false,
        shift_held: false,
        w_pressed: false,
        r_pressed: false,
        e_pressed: false,
    }
}

#[test]
fn decimals() {
    assert_eq!(u64_to_decimal(0), "0");
    assert_eq!(u64_to_decimal(907), "907");
    assert_eq!(u64_to_decimal(u64::MAX), u64::MAX.to_string());
    assert_eq!(i64_to_decimal(-45), "-45");
    assert_eq!(i64_to_decimal(i64::MIN), i64::MIN.to_string());
}

#[test]
fn text_helpers() {
    assert!(str_eq("ab", "ab") && !str_eq("ab", "abc"));
    assert_eq!(owned("x"), "x");
    assert_eq!(webtale::text::concat("ab", "cd"), "abcd");
    assert_eq!(take_chars("héllo", 2), "hé");
    assert_eq!(take_chars("hi", 5), "hi");
    assert!(starts_with("phase.py", "phase") && !starts_with("ph", "phase"));
    assert!(ends_with("phase.py", ".py") && !ends_with("phase.pyc", ".py"));
    assert!(has_char("a/b", '/') && !has_char("ab", '/'));
    assert!(str_lt("ab", "b") && str_lt("a", "ab") && !str_lt("b", "ab") && !str_lt("a", "a"));
}

#[test]
fn names_keep_the_last_value() {
    let mut m: NameMap<i32> = NameMap::new();
    assert_eq!(m.get("a"), None);
    m.insert("a".to_string(), 1);
    m.insert("b".to_string(), 2);
    m.insert("a".to_string(), 3);
    assert_eq!(m.get("a"), Some(&3));
    assert_eq!(m.get("b"), Some(&2));
    assert_eq!(m.entries.len(), 2);
}

#[test]
fn global_shortcuts() {
    let a = global_input_actions(GlobalKeys { escape_pressed: true, ..keys() }, false, false);
    assert!(a.exit && !a.reset && !a.spawn_editor);
    let a = global_input_actions(GlobalKeys { alt_held: true, enter_pressed: true, ..keys() }, false, false);
    assert!(a.toggle_fullscreen && !a.exit);
    let shift_r = GlobalKeys { shift_held: true, r_pressed: true, ..keys() };
    assert!(global_input_actions(shift_r, false, true).reset);
    assert!(!global_input_actions(shift_r, true, true).reset);
    let shift_e = GlobalKeys { shift_held: true, e_pressed: true, ..keys() };
    assert!(global_input_actions(shift_e, false, false).spawn_editor);
    assert!(!global_input_actions(shift_e, false, true).spawn_editor);
    let shift_w = GlobalKeys { shift_held: true, w_pressed: true, ..keys() };
    assert!(global_input_actions(shift_w, false, false).show_window);
    assert!(!global_input_actions(GlobalKeys { w_pressed: true, ..keys() }, false, false).show_window);
}

#[test]
fn closing_windows() {
    assert_eq!(close_action(true, false, false), CloseAction::Exit);
    assert_eq!(close_action(true, false, true), CloseAction::Exit);
    assert_eq!(close_action(false, true, false), CloseAction::Hide);
    assert_eq!(close_action(false, true, true), CloseAction::Ignore);
    assert_eq!(close_action(false, false, false), CloseAction::Ignore);
}
