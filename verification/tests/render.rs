use webtale::render::{
    lv_text, menu_render_decision, menu_render_lines, same_render_key, strings_eq, MenuLine,
    MenuRenderCache, MenuRenderKey, RenderDecision, PAGE_LABEL_INDEX,
};
use webtale::setup::{default_combat_state, default_enemy_state, default_menu_state, default_player_state};
use webtale::state::{
    MainFightState, MENU_LAYER_ACT_COMMAND, MENU_LAYER_FIGHT_TARGET, MENU_LAYER_ITEM,
    MENU_LAYER_MERCY, MENU_LAYER_TOP,
};

fn pairs(lines: Vec<MenuLine>) -> Vec<(i32, String)> {
    lines.into_iter().map(|l| (l.index, l.text)).collect()
}

fn key(layer: i32, dialog: &str) -> MenuRenderKey {
    MenuRenderKey {
        menu_layer: layer,
        menu_coords: vec![0; 11],
        item_page: 0,
        dialog_text: dialog.to_string(),
        enemy_name: "Froggit".to_string(),
        enemy_hp: 30,
        enemy_max_hp: 30,
        act_commands: vec!["Check".to_string()],
        inventory: vec![],
    }
}

#[test]
fn target_line_names_the_enemy() {
    let mut m = default_menu_state();
    let mut e = default_enemy_state();
    let p = default_player_state();
    m.menu_layer = MENU_LAYER_FIGHT_TARGET;
    assert_eq!(pairs(menu_render_lines(&m, &e, None, &p)), vec![(0, "* Enemy".to_string())]);
    e.name = "Froggit".to_string();
    assert_eq!(pairs(menu_render_lines(&m, &e, None, &p)), vec![(0, "* Froggit".to_string())]);
}

#[test]
fn act_lines_list_the_commands() {
    let mut m = default_menu_state();
    let e = default_enemy_state();
    let p = default_player_state();
    m.menu_layer = MENU_LAYER_ACT_COMMAND;
    let acts = vec!["Check".to_string(), "Talk".to_string()];
    assert_eq!(
        pairs(menu_render_lines(&m, &e, Some(&acts), &p)),
        vec![(0, "* Check".to_string()), (1, "* Talk".to_string())]
    );
    assert!(menu_render_lines(&m, &e, None, &p).is_empty());
}

#[test]
fn item_lines_show_one_page_and_its_label() {
    let mut m = default_menu_state();
    let e = default_enemy_state();
    let mut p = default_player_state();
    p.inventory = (0..6).map(|i| format!("I{}", i)).collect();
    m.menu_layer = MENU_LAYER_ITEM;
    m.item_page = 1;
    assert_eq!(
        pairs(menu_render_lines(&m, &e, None, &p)),
        vec![(0, "* I4".to_string()), (1, "* I5".to_string()), (PAGE_LABEL_INDEX, "   PAGE 2".to_string())]
    );
    m.item_page = 0;
    let lines = pairs(menu_render_lines(&m, &e, None, &p));
    assert_eq!(lines.len(), 5);
    assert_eq!(lines[3], (3, "* I3".to_string()));
    assert_eq!(lines[4], (99, "   PAGE 1".to_string()));
}

#[test]
fn mercy_and_top_lines() {
    let mut m = default_menu_state();
    let e = default_enemy_state();
    let p = default_player_state();
    m.menu_layer = MENU_LAYER_MERCY;
    assert_eq!(
        pairs(menu_render_lines(&m, &e, None, &p)),
        vec![(0, "* Spare".to_string()), (1, "* Flee".to_string())]
    );
    m.menu_layer = MENU_LAYER_TOP;
    assert!(menu_render_lines(&m, &e, None, &p).is_empty());
}

#[test]
fn render_keys_compare_by_value() {
    assert!(same_render_key(&key(0, "a"), &key(0, "a")));
    assert!(!same_render_key(&key(0, "a"), &key(0, "b")));
    let mut k = key(0, "a");
    k.menu_coords[3] = 1;
    assert!(!same_render_key(&key(0, "a"), &k));
    assert!(strings_eq(&vec!["x".to_string()], &vec!["x".to_string()]));
    assert!(!strings_eq(&vec!["x".to_string()], &vec!["x".to_string(), "y".to_string()]));
}

#[test]
fn menu_is_drawn_again_only_when_it_changed() {
    let mut cache = MenuRenderCache { key: None };
    let mut c = default_combat_state();
    assert!(matches!(menu_render_decision(&mut cache, &c, key(0, "hi"), true), RenderDecision::Redraw));
    assert!(matches!(menu_render_decision(&mut cache, &c, key(0, "hi"), true), RenderDecision::Keep));
    assert!(matches!(menu_render_decision(&mut cache, &c, key(0, "hi"), false), RenderDecision::RetypeDialog));
    assert!(matches!(menu_render_decision(&mut cache, &c, key(1, "hi"), false), RenderDecision::Redraw));
    assert!(matches!(menu_render_decision(&mut cache, &c, key(1, "hi"), false), RenderDecision::Keep));
    c.mn_fight = MainFightState::EnemyDialog;
    assert!(matches!(menu_render_decision(&mut cache, &c, key(1, "hi"), false), RenderDecision::Clear));
    assert!(cache.key.is_none());
    assert!(matches!(menu_render_decision(&mut cache, &c, key(1, "hi"), false), RenderDecision::Keep));
    c.mn_fight = MainFightState::Menu;
    assert!(matches!(menu_render_decision(&mut cache, &c, key(1, "hi"), false), RenderDecision::Redraw));
}

#[test]
fn level_label() {
    assert_eq!(lv_text(1), "LV 1");
    assert_eq!(lv_text(20), "LV 20");
}
