use webtale::phase::{
    after_phase_update, apply_phase_state, least_name, phase_context, phase_update_scripts,
    requested_phase, trigger_name, PhaseTrigger, PhaseUpdate,
};
use webtale::scripts::{
    get_danmaku_api_script, get_danmaku_script, get_enemy_status_script, get_phase_api_script,
    get_player_status_script, get_properties_script, get_tachie_script, read_script, ScriptStore,
};
use webtale::setup::{default_combat_state, default_enemy_state, default_menu_state};
use webtale::state::{MainFightState, MessageFightState, MENU_LAYER_ITEM};

fn project() -> ScriptStore {
    let mut s = ScriptStore::new();
    for (p, c) in [
        ("projects/default/phases/phase_api.wep", "API"),
        ("projects/default/phases/intro.wep", "INTRO"),
        ("projects/default/phases/rage.wep", "RAGE"),
        ("projects/default/properties/properties.py", "PROPS"),
        ("projects/default/properties/playerStatus.py", "STATUS"),
        ("projects/default/properties/enemyStatus.wep", "ENEMY"),
        ("projects/default/tachie/froggit.py", "TACHIE"),
        ("projects/default/danmaku/api.py", "DAPI"),
        ("projects/default/danmaku/rain.py", "RAIN"),
        ("projects/default/danmaku/rain.py", "SHADOWED"),
    ] {
        s.add(p.to_string(), c.to_string());
    }
    s
}

fn empty_update() -> PhaseUpdate {
    PhaseUpdate {
        dialog_text: None,
        attack_patterns: None,
        bubble_messages: None,
        bubble_message: None,
        bubble_texture: None,
        next_phase: None,
    }
}

#[test]
fn scripts_are_found_under_the_project() {
    let s = project();
    assert_eq!(get_phase_api_script(&s, "default"), Some("API".to_string()));
    assert_eq!(get_properties_script(&s, "default"), Some("PROPS".to_string()));
    assert_eq!(get_player_status_script(&s, "default"), Some("STATUS".to_string()));
    assert_eq!(get_enemy_status_script(&s, "default"), Some("ENEMY".to_string()));
    assert_eq!(get_tachie_script(&s, "default", "froggit"), Some("TACHIE".to_string()));
    assert_eq!(get_tachie_script(&s, "default", ""), None);
    assert_eq!(get_danmaku_api_script(&s, "default"), Some("DAPI".to_string()));
    assert_eq!(get_danmaku_script(&s, "default", "rain"), Some("RAIN".to_string()));
    assert_eq!(get_danmaku_script(&s, "default", ""), None);
    assert_eq!(read_script(&s, "projects/default/danmaku/snow.py"), None);
}

#[test]
fn requested_phases_must_exist() {
    let s = project();
    assert_eq!(requested_phase(&s, "default", "rage"), Some("rage".to_string()));
    assert_eq!(requested_phase(&s, "default", "calm"), None);
    assert_eq!(requested_phase(&s, "default", ""), None);
}

#[test]
fn least_name_sorts_first() {
    assert_eq!(least_name(&vec!["rage".to_string(), "intro".to_string(), "ira".to_string()]), "intro");
    assert_eq!(least_name(&vec![]), "");
}

#[test]
fn phase_update_needs_both_scripts() {
    let s = project();
    let mut c = default_combat_state();
    assert_eq!(phase_update_scripts(&s, "default", &c), None);
    c.phase_name = "intro".to_string();
    assert_eq!(phase_update_scripts(&s, "default", &c), Some(("INTRO".to_string(), "API".to_string())));
    let mut t = ScriptStore::new();
    t.add("projects/default/phases/intro.wep".to_string(), "INTRO".to_string());
    assert_eq!(phase_update_scripts(&t, "default", &c), None);
}

#[test]
fn context_tells_the_turn_and_trigger() {
    let mut e = default_enemy_state();
    e.hp = 12;
    e.max_hp = 30;
    e.name = "Froggit".to_string();
    let mut c = default_combat_state();
    c.turn_count = 1;
    c.phase_turn = 3;
    c.phase_name = "intro".to_string();
    let ctx = phase_context(&e, &c, PhaseTrigger::Turn);
    assert_eq!(ctx.turn, 1);
    assert_eq!(ctx.phase_turn, 3);
    assert_eq!(ctx.enemy_hp, 12);
    assert_eq!(ctx.enemy_name, "Froggit");
    assert_eq!(ctx.phase, "intro");
    assert!(ctx.is_first_turn && !ctx.is_phase_start);
    assert!(ctx.is_turn_start && !ctx.is_start && !ctx.is_damage_applied);
    assert_eq!(ctx.last_player_action, None);
    c.last_player_action = "act".to_string();
    c.last_act_command = Some("Talk".to_string());
    let ctx = phase_context(&e, &c, PhaseTrigger::Damage);
    assert!(ctx.is_damage_applied);
    assert_eq!(ctx.last_player_action, Some("act".to_string()));
    assert_eq!(ctx.last_act_command, Some("Talk".to_string()));
}

#[test]
fn phase_answers_change_the_enemy() {
    let mut e = default_enemy_state();
    let c = default_combat_state();
    let mut m = default_menu_state();
    let mut u = empty_update();
    u.dialog_text = Some("* Angry.".to_string());
    u.attack_patterns = Some(vec!["rain".to_string()]);
    u.bubble_message = Some("Grr.".to_string());
    u.bubble_texture = Some("blconwd".to_string());
    u.next_phase = Some("rage".to_string());
    assert_eq!(apply_phase_state(&mut e, &c, &mut m, u), Some("rage".to_string()));
    assert_eq!(e.dialog_text, "* Angry.");
    assert_eq!(m.dialog_text, "* Angry.");
    assert_eq!(e.attacks, vec!["rain".to_string()]);
    assert_eq!(e.bubble_message_override, Some("Grr.".to_string()));
    assert_eq!(e.bubble_texture, "texture/blcon/spr_blconwd.png");

    let mut u = empty_update();
    u.bubble_message = Some(String::new());
    u.bubble_texture = Some("my/bubble.png".to_string());
    u.dialog_text = Some("* Calm.".to_string());
    m.menu_layer = MENU_LAYER_ITEM;
    assert_eq!(apply_phase_state(&mut e, &c, &mut m, u), None);
    assert_eq!(e.bubble_message_override, Some("Grr.".to_string()));
    assert_eq!(e.bubble_texture, "my/bubble.png");
    assert_eq!(e.dialog_text, "* Calm.");
    assert_eq!(m.dialog_text, "* Angry.");
}

#[test]
fn dialog_text_waits_while_a_message_is_shown() {
    let mut e = default_enemy_state();
    let mut c = default_combat_state();
    let mut m = default_menu_state();
    c.my_fight = MessageFightState::PlayerActionText;
    let mut u = empty_update();
    u.dialog_text = Some("* Later.".to_string());
    apply_phase_state(&mut e, &c, &mut m, u);
    assert_eq!(m.dialog_text, "");
    assert_eq!(e.dialog_text, "* Later.");
    c.my_fight = MessageFightState::NoMessage;
    c.mn_fight = MainFightState::EnemyDialog;
    let mut u = empty_update();
    u.dialog_text = Some("* Now?".to_string());
    apply_phase_state(&mut e, &c, &mut m, u);
    assert_eq!(m.dialog_text, "");
}

#[test]
fn phases_advance_only_to_another_phase() {
    let mut c = default_combat_state();
    c.phase_name = "intro".to_string();
    c.phase_turn = 4;
    assert!(!after_phase_update(&mut c, PhaseTrigger::Turn, None));
    assert!(!after_phase_update(&mut c, PhaseTrigger::Turn, Some("intro".to_string())));
    assert_eq!(c.phase_turn, 4);
    assert!(after_phase_update(&mut c, PhaseTrigger::Turn, Some("rage".to_string())));
    assert_eq!(c.phase_name, "rage");
    assert_eq!(c.phase_turn, 1);
    assert!(!after_phase_update(&mut c, PhaseTrigger::Damage, Some("calm".to_string())));
    assert_eq!(c.phase_name, "calm");
    assert_eq!(c.phase_turn, 0);
    c.phase_turn = 3;
    assert!(after_phase_update(&mut c, PhaseTrigger::Start, Some("intro".to_string())));
    assert_eq!(c.phase_turn, 0);
    assert_eq!(c.turn_count, 0);
}

#[test]
fn trigger_names() {
    assert_eq!(trigger_name(PhaseTrigger::Start), "start");
    assert_eq!(trigger_name(PhaseTrigger::Turn), "turn");
    assert_eq!(trigger_name(PhaseTrigger::Damage), "damage");
}
