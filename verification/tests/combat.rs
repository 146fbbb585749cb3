use webtale::combat::{
    action_text_step, apply_damage, attack_bar_stopped, battle_flow_step, bubble_texture,
    choose_attack_pattern, choose_bubble_message, damage_display, danmaku_sources, DanmakuLoad, damage_digit_textures, defeat_player,
    finish_damage_display, heart_shard_texture, next_slice_frame, pick_attack_pattern,
    pick_bubble_message, random_heart_shard_texture, turn_manager_step, FlowStep, TurnStep,
};
use webtale::phase::PhaseTrigger;
use webtale::scripts::ScriptStore;
use webtale::setup::{default_combat_state, default_enemy_state, default_menu_state};
use webtale::state::{
    MainFightState, MessageFightState, MENU_LAYER_ITEM, MENU_LAYER_TOP,
};

#[test]
fn enemy_dialog_starts_a_turn_then_attacks() {
    let mut c = default_combat_state();
    c.mn_fight = MainFightState::EnemyDialog;
    assert!(matches!(battle_flow_step(&mut c, false, false, false, false), FlowStep::StartTurn { update: PhaseTrigger::Turn }));
    assert_eq!(c.turn_count, 1);
    assert_eq!(c.phase_turn, 1);
    assert!(matches!(battle_flow_step(&mut c, true, false, true, false), FlowStep::Idle));
    assert!(matches!(battle_flow_step(&mut c, true, true, false, false), FlowStep::Idle));
    assert_eq!(c.mn_fight, MainFightState::EnemyDialog);
    assert!(matches!(battle_flow_step(&mut c, true, true, true, false), FlowStep::BeginAttack));
    assert_eq!(c.mn_fight, MainFightState::EnemyAttack);
    assert_eq!(c.turn_count, 1);
}

#[test]
fn flow_is_idle_outside_the_enemy_dialog() {
    let mut c = default_combat_state();
    assert!(matches!(battle_flow_step(&mut c, false, false, false, false), FlowStep::Idle));
    assert_eq!(c.turn_count, 0);
    assert_eq!(c.mn_fight, MainFightState::Menu);
}

#[test]
fn attack_ends_and_the_menu_returns() {
    let mut c = default_combat_state();
    let mut m = default_menu_state();
    let mut e = default_enemy_state();
    e.dialog_text = "* Froggit hops close!".to_string();
    m.menu_layer = MENU_LAYER_ITEM;
    c.mn_fight = MainFightState::EnemyAttack;
    assert!(matches!(turn_manager_step(&mut c, &mut m, &e, false), TurnStep::Attacking));
    assert!(matches!(turn_manager_step(&mut c, &mut m, &e, true), TurnStep::AttackOver));
    assert_eq!(c.mn_fight, MainFightState::TurnCleanup);
    assert_eq!(m.menu_layer, MENU_LAYER_ITEM);
    assert!(matches!(turn_manager_step(&mut c, &mut m, &e, false), TurnStep::BackToMenu));
    assert_eq!(c.mn_fight, MainFightState::Menu);
    assert_eq!(c.my_fight, MessageFightState::NoMessage);
    assert_eq!(m.menu_layer, MENU_LAYER_TOP);
    assert_eq!(m.dialog_text, "* Froggit hops close!");
    assert!(matches!(turn_manager_step(&mut c, &mut m, &e, true), TurnStep::Idle));
}

#[test]
fn damage_lowers_hp_but_not_below_zero() {
    let mut e = default_enemy_state();
    let mut c = default_combat_state();
    e.hp = 30;
    assert_eq!(apply_damage(&mut e, &mut c, 12), (30, PhaseTrigger::Damage));
    assert_eq!(e.hp, 18);
    assert_eq!(c.last_player_action, "attackHit");
    assert_eq!(apply_damage(&mut e, &mut c, 50), (18, PhaseTrigger::Damage));
    assert_eq!(e.hp, 0);
    assert_eq!(apply_damage(&mut e, &mut c, 0), (0, PhaseTrigger::Damage));
    assert_eq!(e.hp, 0);
    assert_eq!(c.last_player_action, "attackMiss");
    assert_eq!(c.last_act_command, None);
}

#[test]
fn hit_then_enemy_speaks_or_vaporizes() {
    let mut e = default_enemy_state();
    let mut c = default_combat_state();
    let mut m = default_menu_state();
    c.mn_fight = MainFightState::PlayerAttackBar;
    attack_bar_stopped(&mut c);
    assert_eq!(c.mn_fight, MainFightState::PlayerAttackResolve);
    e.hp = 5;
    m.menu_layer = MENU_LAYER_ITEM;
    assert!(!finish_damage_display(&e, &mut c, &mut m));
    assert_eq!(c.mn_fight, MainFightState::EnemyDialog);
    assert_eq!(m.menu_layer, MENU_LAYER_TOP);
    assert_eq!(c.turn_count, 0);

    c.mn_fight = MainFightState::PlayerAttackResolve;
    e.hp = 0;
    m.menu_layer = MENU_LAYER_ITEM;
    assert!(finish_damage_display(&e, &mut c, &mut m));
    assert_eq!(c.mn_fight, MainFightState::Menu);
    assert_eq!(m.menu_layer, MENU_LAYER_ITEM);
}

#[test]
fn action_text_is_dismissed_once_finished() {
    let mut c = default_combat_state();
    let mut m = default_menu_state();
    c.my_fight = MessageFightState::PlayerActionText;
    assert!(!action_text_step(&mut c, &mut m, false, true));
    assert!(!action_text_step(&mut c, &mut m, true, false));
    assert_eq!(c.my_fight, MessageFightState::PlayerActionText);
    assert!(action_text_step(&mut c, &mut m, true, true));
    assert_eq!(c.my_fight, MessageFightState::NoMessage);
    assert_eq!(c.mn_fight, MainFightState::EnemyDialog);
    assert!(!action_text_step(&mut c, &mut m, true, true));
}

#[test]
fn whole_turn_returns_to_the_menu() {
    let mut c = default_combat_state();
    let mut m = default_menu_state();
    let e = default_enemy_state();
    c.my_fight = MessageFightState::PlayerActionText;
    assert!(action_text_step(&mut c, &mut m, true, true));
    assert!(matches!(battle_flow_step(&mut c, false, false, false, false), FlowStep::StartTurn { update: PhaseTrigger::Turn }));
    assert!(matches!(battle_flow_step(&mut c, true, true, true, false), FlowStep::BeginAttack));
    assert!(matches!(turn_manager_step(&mut c, &mut m, &e, true), TurnStep::AttackOver));
    assert!(matches!(turn_manager_step(&mut c, &mut m, &e, false), TurnStep::BackToMenu));
    assert_eq!(c.mn_fight, MainFightState::Menu);
    assert_eq!(c.my_fight, MessageFightState::NoMessage);
    assert_eq!(c.turn_count, 1);
    assert_eq!(c.phase_turn, 1);
}

#[test]
fn player_defeat() {
    let mut c = default_combat_state();
    c.mn_fight = MainFightState::EnemyAttack;
    defeat_player(&mut c);
    assert_eq!(c.mn_fight, MainFightState::PlayerDefeated);
}

#[test]
fn bubble_texture_defaults_to_the_small_bubble() {
    let mut e = default_enemy_state();
    e.bubble_texture = String::new();
    assert_eq!(bubble_texture(&e), "texture/blcon/spr_blconsm.png");
    e.bubble_texture = "texture/blcon/spr_blconwd.png".to_string();
    assert_eq!(bubble_texture(&e), "texture/blcon/spr_blconwd.png");
}

#[test]
fn bubble_message_override_is_used_once() {
    let mut e = default_enemy_state();
    e.bubble_messages = vec!["Ribbit.".to_string(), "Croak.".to_string()];
    e.bubble_message_override = Some("Hop!".to_string());
    assert_eq!(pick_bubble_message(&mut e, 1), "Hop!");
    assert_eq!(e.bubble_message_override, None);
    assert_eq!(pick_bubble_message(&mut e, 1), "Croak.");
    let m = choose_bubble_message(&mut e);
    assert!(m == "Ribbit." || m == "Croak.");
    e.bubble_messages.clear();
    assert_eq!(choose_bubble_message(&mut e), "...");
}

#[test]
fn attack_pattern_defaults_to_frog_jump() {
    let mut e = default_enemy_state();
    assert_eq!(pick_attack_pattern(&e, 0), "frogJump");
    assert_eq!(choose_attack_pattern(&e), "frogJump");
    e.attacks = vec!["flies".to_string(), "rain".to_string()];
    assert_eq!(pick_attack_pattern(&e, 1), "rain");
    for _ in 0..20 {
        let p = choose_attack_pattern(&e);
        assert!(p == "flies" || p == "rain");
    }
}

#[test]
fn slash_frames_run_to_five() {
    assert_eq!(next_slice_frame(0), (1, Some("texture/attack/spr_strike_1.png".to_string())));
    assert_eq!(next_slice_frame(4), (5, Some("texture/attack/spr_strike_5.png".to_string())));
    assert_eq!(next_slice_frame(5), (6, None));
}

#[test]
fn damage_number_sprites() {
    assert_eq!(
        damage_digit_textures(105),
        vec![
            "texture/dmgnum/spr_dmgnum_o_1.png".to_string(),
            "texture/dmgnum/spr_dmgnum_o_0.png".to_string(),
            "texture/dmgnum/spr_dmgnum_o_5.png".to_string(),
        ]
    );
    assert_eq!(damage_digit_textures(0), vec!["texture/dmgnum/spr_dmgnum_o_0.png".to_string()]);
    assert_eq!(
        damage_digit_textures(-7),
        vec!["texture/dmgnum/spr_dmgnum_o_-.png".to_string(), "texture/dmgnum/spr_dmgnum_o_7.png".to_string()]
    );
}

#[test]
fn heart_shards() {
    assert_eq!(heart_shard_texture(3), "texture/heart/spr_heartshards_3.png");
    for _ in 0..20 {
        let t = random_heart_shard_texture();
        assert!((0..4).any(|n| t == format!("texture/heart/spr_heartshards_{}.png", n)));
    }
}

#[test]
fn enemy_dialog_waits_while_the_editor_types() {
    let mut c = default_combat_state();
    c.mn_fight = MainFightState::EnemyDialog;
    assert!(matches!(battle_flow_step(&mut c, false, false, false, true), FlowStep::Idle));
    assert_eq!(c.turn_count, 0);
    assert!(matches!(battle_flow_step(&mut c, true, true, true, true), FlowStep::Idle));
    assert_eq!(c.mn_fight, MainFightState::EnemyDialog);
}

fn danmaku_store(with_api: bool, with_script: bool) -> ScriptStore {
    let mut s = ScriptStore::new();
    if with_api {
        s.add("projects/default/danmaku/api.py".to_string(), "API".to_string());
    }
    if with_script {
        s.add("projects/default/danmaku/rain.py".to_string(), "RAIN".to_string());
    }
    s
}

#[test]
fn danmaku_modules_load_once() {
    let s = danmaku_store(true, true);
    match danmaku_sources(&s, "default", "rain", false, false) {
        DanmakuLoad::Ready { api_source, script_source } => {
            assert_eq!(api_source, Some("API".to_string()));
            assert_eq!(script_source, Some("RAIN".to_string()));
        },
        _ => panic!("expected sources"),
    }
    match danmaku_sources(&s, "default", "rain", true, true) {
        DanmakuLoad::Ready { api_source, script_source } => {
            assert_eq!(api_source, None);
            assert_eq!(script_source, None);
        },
        _ => panic!("expected sources"),
    }
    assert!(matches!(danmaku_sources(&danmaku_store(true, false), "default", "rain", false, false), DanmakuLoad::MissingScript));
    assert!(matches!(danmaku_sources(&danmaku_store(false, false), "default", "rain", false, false), DanmakuLoad::MissingScript));
    assert!(matches!(danmaku_sources(&danmaku_store(false, true), "default", "rain", false, false), DanmakuLoad::MissingApi));
    assert!(matches!(danmaku_sources(&danmaku_store(false, false), "default", "rain", false, true), DanmakuLoad::MissingApi));
}

#[test]
fn misses_show_the_miss_sprite() {
    let hit = damage_display(27);
    assert!(hit.hp_bar);
    assert_eq!(
        hit.sprites,
        vec!["texture/dmgnum/spr_dmgnum_o_2.png".to_string(), "texture/dmgnum/spr_dmgnum_o_7.png".to_string()]
    );
    let miss = damage_display(0);
    assert!(!miss.hp_bar);
    assert_eq!(miss.sprites, vec!["texture/dmgnum/spr_dmgmiss_o.png".to_string()]);
    assert!(!damage_display(-3).hp_bar);
}
