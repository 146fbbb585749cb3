use webtale::menu::{
    button_selected, item_use_text, menu_input_step, page_item_count, soul_slot, MenuKeys,
    MenuOutcome, SoulSlot,
};
use webtale::names::NameMap;
use webtale::setup::{
    default_combat_state, default_enemy_state, default_menu_state, default_player_state,
    define_item, new_item_dictionary,
};
use webtale::state::{
    CombatState, EnemyState, ItemDictionary, ItemInfo, MainFightState, MenuState,
    MessageFightState, PlayerState, MENU_LAYER_ACT_COMMAND, MENU_LAYER_ACT_TARGET,
    MENU_LAYER_FIGHT_TARGET, MENU_LAYER_ITEM, MENU_LAYER_MERCY, MENU_LAYER_TOP,
};

fn no_keys() -> MenuKeys {
    MenuKeys { left: false, right: false, up: false, down: false, confirm: false, cancel: false }
}

fn left() -> MenuKeys {
    MenuKeys { left: true, ..no_keys() }
}

fn right() -> MenuKeys {
    MenuKeys { right: true, ..no_keys() }
}

fn up() -> MenuKeys {
    MenuKeys { up: true, ..no_keys() }
}

fn down() -> MenuKeys {
    MenuKeys { down: true, ..no_keys() }
}

fn confirm() -> MenuKeys {
    MenuKeys { confirm: true, ..no_keys() }
}

fn cancel() -> MenuKeys {
    MenuKeys { cancel: true, ..no_keys() }
}

struct Battle {
    menu: MenuState,
    combat: CombatState,
    player: PlayerState,
    enemy: EnemyState,
    items: ItemDictionary,
    acts: Option<Vec<String>>,
}

fn battle() -> Battle {
    let mut enemy = default_enemy_state();
    enemy.name = "Froggit".to_string();
    enemy.atk = 4;
    enemy.def = 5;
    let mut texts = NameMap::new();
    texts.insert("Compliment".to_string(), "* Froggit didn't understand.".to_string());
    enemy.act_texts = texts;
    Battle {
        menu: default_menu_state(),
        combat: default_combat_state(),
        player: default_player_state(),
        enemy,
        items: new_item_dictionary(),
        acts: Some(vec!["Check".to_string(), "Compliment".to_string(), "Threaten".to_string()]),
    }
}

fn press(b: &mut Battle, keys: MenuKeys) -> MenuOutcome {
    menu_input_step(&mut b.menu, &mut b.combat, &mut b.player, &b.enemy, b.acts.as_ref(), &b.items, keys, false, false)
}

fn shown_text(out: MenuOutcome) -> String {
    match out {
        MenuOutcome::ShowText(t) => t,
        _ => panic!("expected a text"),
    }
}

#[test]
fn top_menu_wraps_left_and_right() {
    let mut b = battle();
    press(&mut b, left());
    assert_eq!(b.menu.menu_coords[0], 3);
    press(&mut b, right());
    assert_eq!(b.menu.menu_coords[0], 0);
    press(&mut b, right());
    press(&mut b, right());
    assert_eq!(b.menu.menu_coords[0], 2);
    assert_eq!(b.menu.menu_layer, MENU_LAYER_TOP);
}

#[test]
fn fight_opens_the_attack_bar() {
    let mut b = battle();
    assert!(matches!(press(&mut b, confirm()), MenuOutcome::Nothing));
    assert_eq!(b.menu.menu_layer, MENU_LAYER_FIGHT_TARGET);
    assert!(matches!(press(&mut b, confirm()), MenuOutcome::OpenedAttack));
    assert_eq!(b.combat.mn_fight, MainFightState::PlayerAttackBar);
    assert_eq!(b.combat.last_player_action, "attack");
    assert_eq!(b.combat.last_act_command, None);
}

#[test]
fn check_describes_the_enemy_in_upper_case() {
    let mut b = battle();
    press(&mut b, right());
    press(&mut b, confirm());
    assert_eq!(b.menu.menu_layer, MENU_LAYER_ACT_TARGET);
    press(&mut b, confirm());
    assert_eq!(b.menu.menu_layer, MENU_LAYER_ACT_COMMAND);
    let text = shown_text(press(&mut b, confirm()));
    assert_eq!(text, "* FROGGIT - ATK 4 DEF 5\n* ...");
    assert_eq!(b.menu.dialog_text, text);
    assert_eq!(b.combat.my_fight, MessageFightState::PlayerActionText);
    assert_eq!(b.combat.last_player_action, "act");
    assert_eq!(b.combat.last_act_command, Some("Check".to_string()));
}

#[test]
fn check_of_a_nameless_enemy() {
    let mut b = battle();
    b.enemy.name = String::new();
    b.enemy.atk = -2;
    b.menu.menu_layer = MENU_LAYER_ACT_COMMAND;
    let text = shown_text(press(&mut b, confirm()));
    assert_eq!(text, "* ENEMY - ATK -2 DEF 5\n* ...");
}

#[test]
fn act_uses_the_enemy_text_or_a_plain_message() {
    let mut b = battle();
    b.menu.menu_layer = MENU_LAYER_ACT_COMMAND;
    press(&mut b, right());
    assert_eq!(b.menu.menu_coords[MENU_LAYER_ACT_COMMAND as usize], 1);
    let text = shown_text(press(&mut b, confirm()));
    assert_eq!(text, "* Froggit didn't understand.");
    assert_eq!(b.combat.last_act_command, Some("Compliment".to_string()));

    let mut b = battle();
    b.menu.menu_layer = MENU_LAYER_ACT_COMMAND;
    press(&mut b, down());
    assert_eq!(b.menu.menu_coords[MENU_LAYER_ACT_COMMAND as usize], 2);
    let text = shown_text(press(&mut b, confirm()));
    assert_eq!(text, "* You did something.");
    assert_eq!(b.combat.last_act_command, Some("Threaten".to_string()));
}

#[test]
fn act_without_commands_does_something() {
    let mut b = battle();
    b.acts = None;
    b.menu.menu_layer = MENU_LAYER_ACT_COMMAND;
    let text = shown_text(press(&mut b, confirm()));
    assert_eq!(text, "* You did something.");
    assert_eq!(b.combat.last_player_action, "");
    assert_eq!(b.combat.last_act_command, None);
    assert_eq!(b.combat.my_fight, MessageFightState::PlayerActionText);
}

#[test]
fn act_command_grid_stays_on_its_commands() {
    let mut b = battle();
    b.menu.menu_layer = MENU_LAYER_ACT_COMMAND;
    press(&mut b, left());
    assert_eq!(b.menu.menu_coords[MENU_LAYER_ACT_COMMAND as usize], 0);
    press(&mut b, up());
    assert_eq!(b.menu.menu_coords[MENU_LAYER_ACT_COMMAND as usize], 0);
    press(&mut b, down());
    press(&mut b, right());
    assert_eq!(b.menu.menu_coords[MENU_LAYER_ACT_COMMAND as usize], 2);
    press(&mut b, up());
    assert_eq!(b.menu.menu_coords[MENU_LAYER_ACT_COMMAND as usize], 0);
}

#[test]
fn item_menu_needs_an_inventory() {
    let mut b = battle();
    b.menu.menu_coords[0] = 2;
    press(&mut b, confirm());
    assert_eq!(b.menu.menu_layer, MENU_LAYER_TOP);
}

#[test]
fn eating_an_item_takes_it_from_the_inventory() {
    let mut b = battle();
    b.player.inventory = vec!["Pie".to_string(), "Candy".to_string()];
    define_item(
        &mut b.items,
        "Pie".to_string(),
        ItemInfo { heal_amount: 99, attack: 0, defense: 0, text: "Delicious.".to_string() },
    );
    b.menu.menu_coords[0] = 2;
    b.menu.item_page = 1;
    press(&mut b, confirm());
    assert_eq!(b.menu.menu_layer, MENU_LAYER_ITEM);
    assert_eq!(b.menu.item_page, 0);
    assert_eq!(b.menu.menu_coords[MENU_LAYER_ITEM as usize], 0);
    match press(&mut b, confirm()) {
        MenuOutcome::UsedItem(u) => {
            assert_eq!(u.name, "Pie");
            assert_eq!(u.heal_amount, 99);
            assert_eq!(u.flavor_text, "Delicious.");
        },
        _ => panic!("expected an item"),
    }
    assert_eq!(b.player.inventory, vec!["Candy".to_string()]);
    assert_eq!(b.combat.last_player_action, "item");
    assert_eq!(b.combat.my_fight, MessageFightState::PlayerActionText);
}

#[test]
fn unknown_item_heals_nothing() {
    let mut b = battle();
    b.player.inventory = vec!["Rock".to_string()];
    b.menu.menu_layer = MENU_LAYER_ITEM;
    match press(&mut b, confirm()) {
        MenuOutcome::UsedItem(u) => {
            assert_eq!(u.heal_amount, 0);
            assert_eq!(u.flavor_text, "...");
        },
        _ => panic!("expected an item"),
    }
    assert!(b.player.inventory.is_empty());
}

#[test]
fn item_pages_turn_at_the_grid_edges() {
    let mut b = battle();
    b.player.inventory = (0..6).map(|i| format!("I{}", i)).collect();
    b.menu.menu_layer = MENU_LAYER_ITEM;
    press(&mut b, right());
    assert_eq!(b.menu.menu_coords[MENU_LAYER_ITEM as usize], 1);
    press(&mut b, right());
    assert_eq!(b.menu.item_page, 1);
    assert_eq!(b.menu.menu_coords[MENU_LAYER_ITEM as usize], 0);
    press(&mut b, down());
    assert_eq!(b.menu.menu_coords[MENU_LAYER_ITEM as usize], 0);
    press(&mut b, left());
    assert_eq!(b.menu.item_page, 0);
    assert_eq!(b.menu.menu_coords[MENU_LAYER_ITEM as usize], 1);
    match press(&mut b, confirm()) {
        MenuOutcome::UsedItem(u) => assert_eq!(u.name, "I1"),
        _ => panic!("expected an item"),
    }
}

#[test]
fn mercy_spares_or_flees() {
    let mut b = battle();
    b.menu.menu_layer = MENU_LAYER_MERCY;
    assert_eq!(shown_text(press(&mut b, confirm())), "* Spare... nothing happened.");
    assert_eq!(b.combat.last_player_action, "spare");

    let mut b = battle();
    b.menu.menu_layer = MENU_LAYER_MERCY;
    press(&mut b, down());
    press(&mut b, down());
    assert_eq!(b.menu.menu_coords[MENU_LAYER_MERCY as usize], 1);
    assert_eq!(shown_text(press(&mut b, confirm())), "* Escaped...");
    assert_eq!(b.combat.last_player_action, "flee");
    assert_eq!(b.combat.last_act_command, None);
}

#[test]
fn cancel_goes_back_one_layer() {
    let mut b = battle();
    b.menu.menu_layer = MENU_LAYER_ACT_COMMAND;
    press(&mut b, cancel());
    assert_eq!(b.menu.menu_layer, MENU_LAYER_ACT_TARGET);
    press(&mut b, cancel());
    assert_eq!(b.menu.menu_layer, MENU_LAYER_TOP);
    press(&mut b, cancel());
    assert_eq!(b.menu.menu_layer, MENU_LAYER_TOP);
    b.menu.menu_layer = MENU_LAYER_ITEM;
    press(&mut b, cancel());
    assert_eq!(b.menu.menu_layer, MENU_LAYER_TOP);
}

#[test]
fn menu_ignores_keys_while_a_message_is_shown() {
    let mut b = battle();
    b.combat.my_fight = MessageFightState::PlayerActionText;
    assert!(matches!(press(&mut b, confirm()), MenuOutcome::Nothing));
    press(&mut b, right());
    assert_eq!(b.menu.menu_layer, MENU_LAYER_TOP);
    assert_eq!(b.menu.menu_coords[0], 0);
    b.combat.my_fight = MessageFightState::NoMessage;
    b.combat.mn_fight = MainFightState::EnemyAttack;
    press(&mut b, right());
    assert_eq!(b.menu.menu_coords[0], 0);
}

#[test]
fn item_use_messages() {
    assert_eq!(
        item_use_text("Pie", "Delicious.", false, 12),
        "* You ate the Pie.\n* Delicious.\n* You recovered 12 HP!"
    );
    assert_eq!(item_use_text("Pie", "", false, 3), "* You ate the Pie.\n* You recovered 3 HP!");
    assert_eq!(item_use_text("Pie", "Delicious.", true, 12), "* You ate the Pie.\n* Your HP was maxed out!");
}

#[test]
fn page_counts() {
    assert_eq!(page_item_count(6, 0), 4);
    assert_eq!(page_item_count(6, 1), 2);
    assert_eq!(page_item_count(6, 2), 0);
    assert_eq!(page_item_count(0, 0), 0);
}

#[test]
fn buttons_and_soul() {
    let mut b = battle();
    b.menu.menu_coords[0] = 2;
    assert!(button_selected(&b.combat, &b.menu, 2));
    assert!(!button_selected(&b.combat, &b.menu, 1));
    assert_eq!(soul_slot(&b.combat, &b.menu), SoulSlot::Button(2));
    b.menu.menu_layer = MENU_LAYER_ACT_COMMAND;
    b.menu.menu_coords[MENU_LAYER_ACT_COMMAND as usize] = 3;
    assert!(!button_selected(&b.combat, &b.menu, 2));
    assert_eq!(soul_slot(&b.combat, &b.menu), SoulSlot::Grid { col: 1, row: 1 });
    b.menu.menu_layer = MENU_LAYER_FIGHT_TARGET;
    assert_eq!(soul_slot(&b.combat, &b.menu), SoulSlot::TargetLine);
    b.menu.menu_layer = MENU_LAYER_MERCY;
    b.menu.menu_coords[MENU_LAYER_MERCY as usize] = 1;
    assert_eq!(soul_slot(&b.combat, &b.menu), SoulSlot::Row(1));
    b.combat.mn_fight = MainFightState::EnemyAttack;
    assert_eq!(soul_slot(&b.combat, &b.menu), SoulSlot::Free);
    b.combat.mn_fight = MainFightState::EnemyDialog;
    assert_eq!(soul_slot(&b.combat, &b.menu), SoulSlot::Offscreen);
}

#[test]
fn editor_and_preview_keep_the_keys() {
    let mut b = battle();
    let out = menu_input_step(&mut b.menu, &mut b.combat, &mut b.player, &b.enemy, b.acts.as_ref(), &b.items, confirm(), true, false);
    assert!(matches!(out, MenuOutcome::Nothing));
    assert_eq!(b.menu.menu_layer, MENU_LAYER_TOP);
    let out = menu_input_step(&mut b.menu, &mut b.combat, &mut b.player, &b.enemy, b.acts.as_ref(), &b.items, right(), false, true);
    assert!(matches!(out, MenuOutcome::Nothing));
    assert_eq!(b.menu.menu_coords[0], 0);
}

#[test]
fn negative_cursors_read_as_wrapped_indices() {
    let mut b = battle();
    b.menu.menu_coords[0] = -5;
    press(&mut b, left());
    assert_eq!(b.menu.menu_coords[0], -2);
    press(&mut b, right());
    assert_eq!(b.menu.menu_coords[0], -1);

    let mut b = battle();
    b.menu.menu_layer = MENU_LAYER_MERCY;
    b.menu.menu_coords[MENU_LAYER_MERCY as usize] = -1;
    press(&mut b, up());
    assert_eq!(b.menu.menu_coords[MENU_LAYER_MERCY as usize], -2);
    assert_eq!(shown_text(press(&mut b, confirm())), "* Escaped...");
    assert_eq!(b.combat.last_player_action, "flee");

    let mut b = battle();
    b.menu.menu_layer = MENU_LAYER_FIGHT_TARGET;
    b.menu.menu_coords[MENU_LAYER_FIGHT_TARGET as usize] = -7;
    press(&mut b, cancel());
    assert_eq!(b.menu.menu_layer, MENU_LAYER_TOP);

    let mut b = battle();
    b.menu.menu_layer = MENU_LAYER_ACT_COMMAND;
    b.menu.menu_coords[MENU_LAYER_ACT_COMMAND as usize] = -4;
    assert_eq!(shown_text(press(&mut b, confirm())), "* You did something.");
    assert_eq!(b.combat.last_act_command, None);

    let mut b = battle();
    b.player.inventory = vec!["Pie".to_string()];
    b.menu.menu_layer = MENU_LAYER_ITEM;
    b.menu.menu_coords[MENU_LAYER_ITEM as usize] = -3;
    assert!(matches!(press(&mut b, confirm()), MenuOutcome::Nothing));
    assert_eq!(b.player.inventory.len(), 1);
}
