use webtale::setup::{
    apply_enemy_status, apply_inventory, apply_player_status, default_combat_state,
    default_enemy_state, default_menu_state, default_player_state, define_item, initial_dialog,
    new_item_dictionary, validate_enemy_state, EnemyStatus,
};
use webtale::state::{ItemInfo, MainFightState, MessageFightState, MENU_LAYER_TOP};

fn empty_status() -> EnemyStatus {
    EnemyStatus {
        hp: None,
        max_hp: None,
        atk: None,
        def: None,
        name: None,
        dialog_text: None,
        phase_script: None,
        attack_patterns: None,
        act_commands: None,
        act_texts: vec![],
        bubble_messages: None,
        body_texture: None,
        head_texture: None,
        tachie_script: None,
    }
}

#[test]
fn defaults_start_an_empty_battle() {
    let p = default_player_state();
    assert_eq!(p.lv, 1);
    assert!(p.name.is_empty() && p.inventory.is_empty());
    let e = default_enemy_state();
    assert_eq!(e.bubble_texture, "texture/blcon/spr_blconsm.png");
    assert_eq!(e.hp, 0);
    let m = default_menu_state();
    assert_eq!(m.menu_layer, MENU_LAYER_TOP);
    assert_eq!(m.menu_coords, vec![0; 11]);
    let c = default_combat_state();
    assert_eq!(c.mn_fight, MainFightState::Menu);
    assert_eq!(c.my_fight, MessageFightState::NoMessage);
    assert_eq!(c.turn_count, 0);
}

#[test]
fn enemy_status_replaces_what_it_names() {
    let mut e = default_enemy_state();
    e.atk = 7;
    let mut s = empty_status();
    s.hp = Some(30);
    s.max_hp = Some(30);
    s.name = Some("Froggit".to_string());
    s.phase_script = Some("intro".to_string());
    s.act_commands = Some(vec!["Check".to_string(), "Talk".to_string()]);
    s.act_texts = vec![
        ("Talk".to_string(), "* First.".to_string()),
        ("Talk".to_string(), "* Second.".to_string()),
    ];
    assert_eq!(apply_enemy_status(&mut e, s), Some("intro".to_string()));
    assert_eq!(e.hp, 30);
    assert_eq!(e.atk, 7);
    assert_eq!(e.name, "Froggit");
    assert_eq!(e.act_commands, vec!["Check".to_string(), "Talk".to_string()]);
    assert_eq!(e.act_texts.get("Talk"), Some(&"* Second.".to_string()));
    assert_eq!(e.act_texts.get("Check"), None);
    assert_eq!(apply_enemy_status(&mut e, empty_status()), None);
    assert_eq!(e.hp, 30);
}

#[test]
fn max_hp_is_at_least_one() {
    let mut e = default_enemy_state();
    validate_enemy_state(&mut e);
    assert_eq!(e.max_hp, 1);
    e.max_hp = 40;
    validate_enemy_state(&mut e);
    assert_eq!(e.max_hp, 40);
}

#[test]
fn menu_opens_on_the_enemy_dialog() {
    let mut m = default_menu_state();
    let mut e = default_enemy_state();
    m.dialog_text = "old".to_string();
    initial_dialog(&mut m, &e);
    assert_eq!(m.dialog_text, "old");
    e.dialog_text = "* Froggit attacks!".to_string();
    initial_dialog(&mut m, &e);
    assert_eq!(m.dialog_text, "* Froggit attacks!");
}

#[test]
fn inventory_and_equipment() {
    let mut p = default_player_state();
    apply_inventory(&mut p, Some(vec!["Pie".to_string()]), Some("Stick".to_string()), Some(String::new()));
    assert_eq!(p.inventory, vec!["Pie".to_string()]);
    assert_eq!(p.equipped_items, vec!["Stick".to_string()]);
    apply_inventory(&mut p, None, None, Some("Bandage".to_string()));
    assert_eq!(p.inventory, vec!["Pie".to_string()]);
    assert_eq!(p.equipped_items, vec!["Stick".to_string(), "Bandage".to_string()]);
    apply_player_status(&mut p, Some("CHARA".to_string()), None, None);
    assert_eq!(p.name, "CHARA");
    assert_eq!(p.lv, 1);
    apply_player_status(&mut p, None, Some(5), Some(7));
    assert_eq!(p.lv, 5);
    apply_player_status(&mut p, None, None, Some(7));
    assert_eq!(p.lv, 7);
    apply_player_status(&mut p, None, Some(5), None);
    assert_eq!(p.lv, 5);
}

#[test]
fn item_definitions_replace_earlier_ones() {
    let mut d = new_item_dictionary();
    assert!(d.0.get("Pie").is_none());
    define_item(&mut d, "Pie".to_string(), ItemInfo { heal_amount: 10, attack: 0, defense: 0, text: String::new() });
    define_item(&mut d, "Pie".to_string(), ItemInfo { heal_amount: 99, attack: 1, defense: 2, text: "x".to_string() });
    let info = d.0.get("Pie").unwrap();
    assert_eq!(info.heal_amount, 99);
    assert_eq!(info.defense, 2);
}
