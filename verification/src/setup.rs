//! A new battle: the starting state, and taking in what the project's scripts define.
use vstd::prelude::*;
use crate::names::{NameMap, find};
use crate::scripts::{opt_view, strings_view};
use crate::state::{
    CombatState, EnemyState, ItemDictionary, ItemInfo, MainFightState, MenuState,
    MessageFightState, PlayerState, MENU_COORD_SLOTS, MENU_LAYER_TOP,
};
use crate::text::owned;
use crate::answer::{
    ScriptValue, dict_entry, dict_value, int_entry, int_value, last_text, opt_seq, text_entry,
    text_pairs, text_pairs_value, text_value, texts_entry, texts_value,
};

verus! {

/// The player before the project's scripts are read: level 1, no name, nothing carried.
pub fn default_player_state() -> (p: PlayerState)
    ensures
        p.lv == 1,
        p.name@.len() == 0,
        p.inventory@.len() == 0,
        p.equipped_items@.len() == 0,
{
    PlayerState { lv: 1, name: String::new(), inventory: Vec::new(), equipped_items: Vec::new() }
}

/// The enemy before the project's scripts are read: no stats, names or texts, and the
/// small speech bubble.
pub fn default_enemy_state() -> (e: EnemyState)
    ensures
        e.hp == 0 && e.max_hp == 0 && e.atk == 0 && e.def == 0,
        e.name@.len() == 0 && e.dialog_text@.len() == 0,
        e.act_commands@.len() == 0 && e.bubble_messages@.len() == 0 && e.attacks@.len() == 0,
        forall|k: Seq<char>| e.act_texts.get_spec(k) is None,
        e.body_texture@.len() == 0 && e.head_texture@.len() == 0 && e.tachie_script@.len() == 0,
        e.bubble_texture@ == "texture/blcon/spr_blconsm.png"@,
        e.bubble_message_override is None,
{
    EnemyState {
        hp: 0,
        max_hp: 0,
        atk: 0,
        def: 0,
        name: String::new(),
        dialog_text: String::new(),
        act_commands: Vec::new(),
        act_texts: NameMap::new(),
        bubble_messages: Vec::new(),
        body_texture: String::new(),
        head_texture: String::new(),
        tachie_script: String::new(),
        attacks: Vec::new(),
        bubble_texture: owned("texture/blcon/spr_blconsm.png"),
        bubble_message_override: None,
    }
}

/// The menu at the start: top layer, every cursor on its first entry, first item page.
pub fn default_menu_state() -> (m: MenuState)
    ensures
        m.wf(),
        m.menu_layer == MENU_LAYER_TOP,
        forall|i: int| 0 <= i < m.menu_coords@.len() ==> m.menu_coords@[i] == 0,
        m.item_page == 0,
        m.dialog_text@.len() == 0,
{
    let mut coords: Vec<i32> = Vec::new();
    let mut i: usize = 0;
    while i < MENU_COORD_SLOTS
        invariant
            i <= MENU_COORD_SLOTS,
            coords@.len() == i,
            forall|j: int| 0 <= j < i ==> coords@[j] == 0,
        decreases MENU_COORD_SLOTS - i,
    {
        coords.push(0);
        i = i + 1;
    }
    MenuState {
        menu_layer: MENU_LAYER_TOP,
        menu_coords: coords,
        item_page: 0,
        dialog_text: String::new(),
    }
}

/// The turn flow at the start: the menu, no message, no phase yet, no turn played.
pub fn default_combat_state() -> (c: CombatState)
    ensures
        c.mn_fight == MainFightState::Menu,
        c.my_fight == MessageFightState::NoMessage,
        c.phase_name@.len() == 0,
        c.phase_turn == 0,
        c.turn_count == 0,
        c.last_player_action@.len() == 0,
        c.last_act_command is None,
{
    CombatState {
        mn_fight: MainFightState::Menu,
        my_fight: MessageFightState::NoMessage,
        phase_name: String::new(),
        phase_turn: 0,
        turn_count: 0,
        last_player_action: String::new(),
        last_act_command: None,
    }
}

/// What the enemy status script returned; a field is `None` where its key was absent or
/// unreadable. `act_texts` lists the entries of its text dictionary in order.
pub struct EnemyStatus {
    pub hp: Option<i32>,
    pub max_hp: Option<i32>,
    pub atk: Option<i32>,
    pub def: Option<i32>,
    pub name: Option<String>,
    pub dialog_text: Option<String>,
    pub phase_script: Option<String>,
    pub attack_patterns: Option<Vec<String>>,
    pub act_commands: Option<Vec<String>>,
    pub act_texts: Vec<(String, String)>,
    pub bubble_messages: Option<Vec<String>>,
    pub body_texture: Option<String>,
    pub head_texture: Option<String>,
    pub tachie_script: Option<String>,
}

/// `o`'s value, or `d`.
pub open spec fn or_else<T>(o: Option<T>, d: T) -> T {
    match o {
        Some(v) => v,
        None => d,
    }
}

/// The act texts after adding `entries` in order (a later entry for a command replaces an
/// earlier one).
pub open spec fn texts_after(m: NameMap<String>, entries: Seq<(String, String)>, k: Seq<char>) -> Option<String>
    decreases entries.len(),
{
    if entries.len() == 0 {
        m.get_spec(k)
    } else {
        let last = entries.last();
        if last.0@ == k {
            Some(last.1)
        } else {
            texts_after(m, entries.drop_last(), k)
        }
    }
}

/// Whether the enemy went from `e0` to `e1` by taking in the enemy status `status`: each
/// value present replaces the enemy's, the act texts are added in order (`texts_after`),
/// and the bubble's texture and message stay.
pub open spec fn status_applied(e0: EnemyState, e1: EnemyState, status: EnemyStatus) -> bool {
    &&& e1.hp == or_else(status.hp, e0.hp)
    &&& e1.max_hp == or_else(status.max_hp, e0.max_hp)
    &&& e1.atk == or_else(status.atk, e0.atk)
    &&& e1.def == or_else(status.def, e0.def)
    &&& e1.name == or_else(status.name, e0.name)
    &&& e1.dialog_text == or_else(status.dialog_text, e0.dialog_text)
    &&& e1.attacks == or_else(status.attack_patterns, e0.attacks)
    &&& e1.act_commands == or_else(status.act_commands, e0.act_commands)
    &&& e1.bubble_messages == or_else(status.bubble_messages, e0.bubble_messages)
    &&& e1.body_texture == or_else(status.body_texture, e0.body_texture)
    &&& e1.head_texture == or_else(status.head_texture, e0.head_texture)
    &&& e1.tachie_script == or_else(status.tachie_script, e0.tachie_script)
    &&& e1.bubble_texture == e0.bubble_texture
    &&& e1.bubble_message_override == e0.bubble_message_override
    &&& forall|k: Seq<char>| #[trigger] e1.act_texts.get_spec(k) == texts_after(
        e0.act_texts,
        status.act_texts@,
        k,
    )
}

/// Takes in the enemy status script's answer: each value present replaces the default,
/// the act texts are added. Returns the phase script it names.
pub fn apply_enemy_status(enemy: &mut EnemyState, status: EnemyStatus) -> (phase_script: Option<String>)
    ensures
        status_applied(*old(enemy), *final(enemy), status),
        phase_script == status.phase_script,
{
    let EnemyStatus {
        hp,
        max_hp,
        atk,
        def,
        name,
        dialog_text,
        phase_script,
        attack_patterns,
        act_commands,
        act_texts,
        bubble_messages,
        body_texture,
        head_texture,
        tachie_script,
    } = status;
    if let Some(v) = hp {
        enemy.hp = v;
    }
    if let Some(v) = max_hp {
        enemy.max_hp = v;
    }
    if let Some(v) = atk {
        enemy.atk = v;
    }
    if let Some(v) = def {
        enemy.def = v;
    }
    if let Some(v) = name {
        enemy.name = v;
    }
    if let Some(v) = dialog_text {
        enemy.dialog_text = v;
    }
    if let Some(v) = attack_patterns {
        enemy.attacks = v;
    }
    if let Some(v) = act_commands {
        enemy.act_commands = v;
    }
    if let Some(v) = bubble_messages {
        enemy.bubble_messages = v;
    }
    if let Some(v) = body_texture {
        enemy.body_texture = v;
    }
    if let Some(v) = head_texture {
        enemy.head_texture = v;
    }
    if let Some(v) = tachie_script {
        enemy.tachie_script = v;
    }
    let ghost entries = act_texts@;
    let ghost start = enemy.act_texts;
    let ghost fields = *enemy;
    let mut rest = act_texts;
    let n = rest.len();
    let mut i: usize = 0;
    assert(entries.skip(0) =~= entries);
    while i < n
        invariant
            n == entries.len(),
            i <= n,
            rest@ == entries.skip(i as int),
            *enemy == (EnemyState { act_texts: enemy.act_texts, ..fields }),
            forall|k: Seq<char>| #[trigger] enemy.act_texts.get_spec(k) == texts_after(
                start,
                entries.take(i as int),
                k,
            ),
        decreases n - i,
    {
        let (key, text) = rest.remove(0);
        assert((key, text) == entries[i as int]);
        assert(rest@ =~= entries.skip(i + 1));
        enemy.act_texts.insert(key, text);
        assert forall|k: Seq<char>| #[trigger] enemy.act_texts.get_spec(k) == texts_after(
            start,
            entries.take(i + 1),
            k,
        ) by {
            assert(entries.take(i + 1).drop_last() =~= entries.take(i as int));
            assert(entries.take(i + 1).last() == entries[i as int]);
        }
        i = i + 1;
    }
    assert(entries.take(n as int) =~= entries);
    phase_script
}

/// An enemy whose maximum hit points the scripts left at zero or below gets 1, so that
/// its health bar can be drawn.
pub fn validate_enemy_state(enemy: &mut EnemyState)
    ensures
        *final(enemy) == (EnemyState {
            max_hp: if old(enemy).max_hp <= 0 {
                1
            } else {
                old(enemy).max_hp
            },
            ..*old(enemy)
        }),
{
    if enemy.max_hp <= 0 {
        enemy.max_hp = 1;
    }
}

/// The menu opens on the enemy's dialog text, when it has one.
pub fn initial_dialog(menu: &mut MenuState, enemy: &EnemyState)
    ensures
        *final(menu) == (MenuState {
            dialog_text: final(menu).dialog_text,
            ..*old(menu)
        }),
        enemy.dialog_text@.len() > 0 ==> final(menu).dialog_text@ == enemy.dialog_text@,
        enemy.dialog_text@.len() == 0 ==> final(menu).dialog_text == old(menu).dialog_text,
{
    if enemy.dialog_text.as_str().unicode_len() > 0 {
        menu.dialog_text = enemy.dialog_text.clone();
    }
}

/// Takes in the player's inventory from the properties script: the carried items (when
/// given) replace the default, and a weapon and an armor with a name are equipped in that
/// order.
pub fn apply_inventory(
    player: &mut PlayerState,
    items: Option<Vec<String>>,
    weapon: Option<String>,
    armor: Option<String>,
)
    ensures
        final(player).inventory == or_else(items, old(player).inventory),
        strings_view(final(player).equipped_items@) == strings_view(old(player).equipped_items@)
            + (if weapon is Some && weapon->0@.len() > 0 {
            seq![weapon->0@]
        } else {
            seq![]
        }) + (if armor is Some && armor->0@.len() > 0 {
            seq![armor->0@]
        } else {
            seq![]
        }),
        final(player).lv == old(player).lv,
        final(player).name == old(player).name,
{
    if let Some(v) = items {
        player.inventory = v;
    }
    let ghost e0 = strings_view(player.equipped_items@);
    if let Some(w) = weapon {
        if w.as_str().unicode_len() > 0 {
            player.equipped_items.push(w);
        }
    }
    let ghost e1 = strings_view(player.equipped_items@);
    if let Some(a) = armor {
        if a.as_str().unicode_len() > 0 {
            player.equipped_items.push(a);
        }
    }
    assert(strings_view(player.equipped_items@) =~= e1 + (if armor is Some && armor->0@.len()
        > 0 {
        seq![armor->0@]
    } else {
        seq![]
    }));
    assert(e1 =~= e0 + (if weapon is Some && weapon->0@.len() > 0 {
        seq![weapon->0@]
    } else {
        seq![]
    }));
}

/// Takes in the player's name and level from the properties script's status. The level is
/// read from `lv`, or from `currentLevel` when `lv` is absent or unreadable.
pub fn apply_player_status(
    player: &mut PlayerState,
    name: Option<String>,
    lv: Option<i32>,
    current_level: Option<i32>,
)
    ensures
        final(player).name == or_else(name, old(player).name),
        final(player).lv == or_else(lv, or_else(current_level, old(player).lv)),
        final(player).inventory == old(player).inventory,
        final(player).equipped_items == old(player).equipped_items,
{
    if let Some(n) = name {
        player.name = n;
    }
    if let Some(l) = lv {
        player.lv = l;
    } else if let Some(l) = current_level {
        player.lv = l;
    }
}

/// An empty item dictionary.
pub fn new_item_dictionary() -> (d: ItemDictionary)
    ensures
        forall|k: Seq<char>| d.0.get_spec(k) is None,
{
    ItemDictionary(NameMap::new())
}

/// Adds an item the properties script defines (replacing an earlier one of that name).
pub fn define_item(items: &mut ItemDictionary, name: String, info: ItemInfo)
    ensures
        final(items).0.get_spec(name@) == Some(info),
        forall|k: Seq<char>| k != name@ ==> final(items).0.get_spec(k) == old(items).0.get_spec(k),
{
    items.0.insert(name, info);
}

/// Whether `st` is the enemy status the answer `d` gives: `enemyHp`, `enemyMaxHp`,
/// `enemyAtk` and `enemyDef` as integers, `enemyName`, `dialogText`, `phaseScript`,
/// `bodyTexture`, `headTexture` and `tachieScript` as strings, `attackPatterns`,
/// `actCommands` and `bubbleMessages` as lists of strings, and the string entries of the
/// `actTexts` dictionary in order.
pub open spec fn status_read(st: EnemyStatus, d: Seq<(String, ScriptValue)>) -> bool {
    &&& st.hp == int_entry(d, "enemyHp"@)
    &&& st.max_hp == int_entry(d, "enemyMaxHp"@)
    &&& st.atk == int_entry(d, "enemyAtk"@)
    &&& st.def == int_entry(d, "enemyDef"@)
    &&& st.name == text_entry(d, "enemyName"@)
    &&& st.dialog_text == text_entry(d, "dialogText"@)
    &&& st.phase_script == text_entry(d, "phaseScript"@)
    &&& opt_seq(st.attack_patterns) == texts_entry(d, "attackPatterns"@)
    &&& opt_seq(st.act_commands) == texts_entry(d, "actCommands"@)
    &&& st.act_texts@ == match dict_entry(d, "actTexts"@) {
        Some(e) => text_pairs(e),
        None => seq![],
    }
    &&& opt_seq(st.bubble_messages) == texts_entry(d, "bubbleMessages"@)
    &&& st.body_texture == text_entry(d, "bodyTexture"@)
    &&& st.head_texture == text_entry(d, "headTexture"@)
    &&& st.tachie_script == text_entry(d, "tachieScript"@)
}

/// The enemy status the enemy status script's answer `d` gives (`status_read`).
pub fn enemy_status_from(d: &Vec<(String, ScriptValue)>) -> (st: EnemyStatus)
    ensures
        status_read(st, d@),
{
    let act_texts = match dict_value(d, "actTexts") {
        Some(e) => text_pairs_value(e),
        None => Vec::new(),
    };
    EnemyStatus {
        hp: int_value(d, "enemyHp"),
        max_hp: int_value(d, "enemyMaxHp"),
        atk: int_value(d, "enemyAtk"),
        def: int_value(d, "enemyDef"),
        name: text_value(d, "enemyName"),
        dialog_text: text_value(d, "dialogText"),
        phase_script: text_value(d, "phaseScript"),
        attack_patterns: texts_value(d, "attackPatterns"),
        act_commands: texts_value(d, "actCommands"),
        act_texts,
        bubble_messages: texts_value(d, "bubbleMessages"),
        body_texture: text_value(d, "bodyTexture"),
        head_texture: text_value(d, "headTexture"),
        tachie_script: text_value(d, "tachieScript"),
    }
}

proof fn lemma_texts_after_pairs(m: NameMap<String>, e: Seq<(String, ScriptValue)>, k: Seq<char>)
    ensures
        texts_after(m, text_pairs(e), k) == match last_text(e, k) {
            Some(t) => Some(t),
            None => m.get_spec(k),
        },
    decreases e.len(),
{
    if e.len() > 0 {
        lemma_texts_after_pairs(m, e.drop_last(), k);
        let rest = text_pairs(e.drop_last());
        if let Some(t) = e.last().1.text {
            assert(text_pairs(e) == rest.push((e.last().0, t)));
            assert(rest.push((e.last().0, t)).drop_last() =~= rest);
        }
    }
}

/// Taking in the enemy status script's answer `d`: every stat, name and text the answer
/// holds under its key becomes the enemy's (its hit points under `enemyHp`, its dialog
/// text under `dialogText`, and so on), and what it lacks stays as it was; the act text
/// of a command is the last string the `actTexts` dictionary gives for it, else the
/// enemy's earlier one.
pub proof fn law_enemy_takes_status_answer(
    e0: EnemyState,
    e1: EnemyState,
    st: EnemyStatus,
    d: Seq<(String, ScriptValue)>,
)
    requires
        status_read(st, d),
        status_applied(e0, e1, st),
    ensures
        e1.hp == or_else(int_entry(d, "enemyHp"@), e0.hp),
        e1.max_hp == or_else(int_entry(d, "enemyMaxHp"@), e0.max_hp),
        e1.atk == or_else(int_entry(d, "enemyAtk"@), e0.atk),
        e1.def == or_else(int_entry(d, "enemyDef"@), e0.def),
        e1.name == or_else(text_entry(d, "enemyName"@), e0.name),
        e1.dialog_text == or_else(text_entry(d, "dialogText"@), e0.dialog_text),
        e1.body_texture == or_else(text_entry(d, "bodyTexture"@), e0.body_texture),
        e1.head_texture == or_else(text_entry(d, "headTexture"@), e0.head_texture),
        e1.tachie_script == or_else(text_entry(d, "tachieScript"@), e0.tachie_script),
        e1.attacks@ == or_else(texts_entry(d, "attackPatterns"@), e0.attacks@),
        e1.act_commands@ == or_else(texts_entry(d, "actCommands"@), e0.act_commands@),
        e1.bubble_messages@ == or_else(texts_entry(d, "bubbleMessages"@), e0.bubble_messages@),
        forall|k: Seq<char>| #[trigger] e1.act_texts.get_spec(k) == match dict_entry(d, "actTexts"@) {
            Some(e) => match last_text(e, k) {
                Some(t) => Some(t),
                None => e0.act_texts.get_spec(k),
            },
            None => e0.act_texts.get_spec(k),
        },
{
    assert forall|k: Seq<char>| #[trigger] e1.act_texts.get_spec(k) == match dict_entry(d, "actTexts"@) {
        Some(e) => match last_text(e, k) {
            Some(t) => Some(t),
            None => e0.act_texts.get_spec(k),
        },
        None => e0.act_texts.get_spec(k),
    } by {
        match dict_entry(d, "actTexts"@) {
            Some(e) => lemma_texts_after_pairs(e0.act_texts, e, k),
            None => {},
        }
    }
}

/// The player's name and level the properties' `status` dictionary `s` gives: `name` as a
/// string, `lv` and `currentLevel` as integers.
pub fn player_status_from(s: &Vec<(String, ScriptValue)>) -> (r: (Option<String>, Option<i32>, Option<i32>))
    ensures
        r.0 == text_entry(s@, "name"@),
        r.1 == int_entry(s@, "lv"@),
        r.2 == int_entry(s@, "currentLevel"@),
{
    (text_value(s, "name"), int_value(s, "lv"), int_value(s, "currentLevel"))
}

/// Whether the player went from `p0` to `p1` by taking in the properties' `status`
/// dictionary `s` (`apply_player_status` on what `player_status_from` reads).
pub open spec fn player_status_taken(p0: PlayerState, p1: PlayerState, s: Seq<(String, ScriptValue)>) -> bool {
    &&& p1.name == or_else(text_entry(s, "name"@), p0.name)
    &&& p1.lv == or_else(int_entry(s, "lv"@), or_else(int_entry(s, "currentLevel"@), p0.lv))
}

/// The player's level after taking in a `status` dictionary: its `lv` when it holds an
/// integer there, else its `currentLevel`, else the level stays; its name is the `name`
/// string when there is one.
pub proof fn law_player_level_from_status(p0: PlayerState, p1: PlayerState, s: Seq<(String, ScriptValue)>)
    requires
        player_status_taken(p0, p1, s),
    ensures
        int_entry(s, "lv"@) is Some ==> p1.lv == int_entry(s, "lv"@)->0,
        int_entry(s, "lv"@) is None && int_entry(s, "currentLevel"@) is Some ==> p1.lv == int_entry(
            s,
            "currentLevel"@,
        )->0,
        int_entry(s, "lv"@) is None && int_entry(s, "currentLevel"@) is None ==> p1.lv == p0.lv,
        text_entry(s, "name"@) is Some ==> p1.name == text_entry(s, "name"@)->0,
        text_entry(s, "name"@) is None ==> p1.name == p0.name,
{
}

/// Whether `items`, `weapon` and `armor` are what the properties' `inventory` dictionary
/// `inv` gives: its `items` as a list of strings, and the `weapon` and `armor` strings of
/// its `equipment` dictionary.
pub open spec fn inventory_read(
    items: Option<Vec<String>>,
    weapon: Option<String>,
    armor: Option<String>,
    inv: Seq<(String, ScriptValue)>,
) -> bool {
    &&& opt_seq(items) == texts_entry(inv, "items"@)
    &&& weapon == match dict_entry(inv, "equipment"@) {
        Some(e) => text_entry(e, "weapon"@),
        None => None,
    }
    &&& armor == match dict_entry(inv, "equipment"@) {
        Some(e) => text_entry(e, "armor"@),
        None => None,
    }
}

/// The carried items, weapon and armor the properties' `inventory` dictionary gives.
pub fn inventory_from(inv: &Vec<(String, ScriptValue)>) -> (r: (Option<Vec<String>>, Option<String>, Option<String>))
    ensures
        inventory_read(r.0, r.1, r.2, inv@),
{
    let items = texts_value(inv, "items");
    let (weapon, armor) = match dict_value(inv, "equipment") {
        Some(e) => (text_value(e, "weapon"), text_value(e, "armor")),
        None => (None, None),
    };
    (items, weapon, armor)
}

/// The carried items are the inventory's `items` list when it has one; the weapon and the
/// armor are those its `equipment` names.
pub proof fn law_inventory_keys(
    items: Option<Vec<String>>,
    weapon: Option<String>,
    armor: Option<String>,
    inv: Seq<(String, ScriptValue)>,
    e: Seq<(String, ScriptValue)>,
)
    requires
        inventory_read(items, weapon, armor, inv),
    ensures
        texts_entry(inv, "items"@) is Some ==> items is Some && items->0@ == texts_entry(inv, "items"@)->0,
        texts_entry(inv, "items"@) is None ==> items is None,
        dict_entry(inv, "equipment"@) == Some(e) ==> weapon == text_entry(e, "weapon"@) && armor
            == text_entry(e, "armor"@),
        dict_entry(inv, "equipment"@) is None ==> weapon is None && armor is None,
{
}

/// Whether `info` is the item an item's dictionary `v` describes: `heal`, `attack` and
/// `defense` as integers (0 when absent) and `text` as a string (empty when absent).
pub open spec fn item_read(info: ItemInfo, v: Seq<(String, ScriptValue)>) -> bool {
    &&& info.heal_amount == or_else(int_entry(v, "heal"@), 0)
    &&& info.attack == or_else(int_entry(v, "attack"@), 0)
    &&& info.defense == or_else(int_entry(v, "defense"@), 0)
    &&& info.text@ == match text_entry(v, "text"@) {
        Some(t) => t@,
        None => Seq::<char>::empty(),
    }
}

/// The item an item's dictionary describes (`item_read`).
pub fn item_info_from(v: &Vec<(String, ScriptValue)>) -> (info: ItemInfo)
    ensures
        item_read(info, v@),
{
    ItemInfo {
        heal_amount: match int_value(v, "heal") {
            Some(x) => x,
            None => 0,
        },
        attack: match int_value(v, "attack") {
            Some(x) => x,
            None => 0,
        },
        defense: match int_value(v, "defense") {
            Some(x) => x,
            None => 0,
        },
        text: match text_value(v, "text") {
            Some(t) => t,
            None => String::new(),
        },
    }
}

/// An item heals by its `heal`, and adds its `attack` and `defense`, each 0 when the
/// dictionary gives no integer there; its text is its `text` string, else empty.
pub proof fn law_item_keys(info: ItemInfo, v: Seq<(String, ScriptValue)>)
    requires
        item_read(info, v),
    ensures
        int_entry(v, "heal"@) is Some ==> info.heal_amount == int_entry(v, "heal"@)->0,
        int_entry(v, "heal"@) is None ==> info.heal_amount == 0,
        int_entry(v, "attack"@) is Some ==> info.attack == int_entry(v, "attack"@)->0,
        int_entry(v, "attack"@) is None ==> info.attack == 0,
        int_entry(v, "defense"@) is Some ==> info.defense == int_entry(v, "defense"@)->0,
        int_entry(v, "defense"@) is None ==> info.defense == 0,
        text_entry(v, "text"@) is Some ==> info.text@ == text_entry(v, "text"@)->0@,
        text_entry(v, "text"@) is None ==> info.text@.len() == 0,
{
}

/// The dictionary of the last entry with key `k` whose value is a dictionary.
pub open spec fn last_dict(d: Seq<(String, ScriptValue)>, k: Seq<char>) -> Option<Seq<(String, ScriptValue)>>
    decreases d.len(),
{
    if d.len() == 0 {
        None
    } else if d.last().0@ == k && d.last().1.entries is Some {
        Some(d.last().1.entries->0@)
    } else {
        last_dict(d.drop_last(), k)
    }
}

/// Defines the items of the properties' `items` dictionary `entries`: each entry whose value
/// is a dictionary defines the item of its name (`item_read`), a later one replacing an
/// earlier; other items stay.
pub fn define_items_from(items: &mut ItemDictionary, entries: &Vec<(String, ScriptValue)>)
    ensures
        forall|k: Seq<char>| #[trigger] last_dict(entries@, k) is Some ==> final(items).0.get_spec(k) is Some
            && item_read(final(items).0.get_spec(k)->0, last_dict(entries@, k)->0),
        forall|k: Seq<char>| #[trigger] last_dict(entries@, k) is None ==> final(items).0.get_spec(k)
            == old(items).0.get_spec(k),
{
    let n = entries.len();
    let mut i: usize = 0;
    while i < n
        invariant
            n == entries@.len(),
            i <= n,
            forall|k: Seq<char>| #[trigger] last_dict(entries@.subrange(0, i as int), k) is Some
                ==> items.0.get_spec(k) is Some && item_read(
                items.0.get_spec(k)->0,
                last_dict(entries@.subrange(0, i as int), k)->0,
            ),
            forall|k: Seq<char>| #[trigger] last_dict(entries@.subrange(0, i as int), k) is None
                ==> items.0.get_spec(k) == old(items).0.get_spec(k),
        decreases n - i,
    {
        let ghost pre = entries@.subrange(0, i as int);
        let ghost post = entries@.subrange(0, i + 1);
        assert(post.drop_last() =~= pre);
        if let Some(v) = &entries[i].1.entries {
            let info = item_info_from(v);
            define_item(items, entries[i].0.clone(), info);
        }
        assert forall|k: Seq<char>| #[trigger] last_dict(post, k) is Some implies items.0.get_spec(k) is Some
            && item_read(items.0.get_spec(k)->0, last_dict(post, k)->0) by {
            {
                if k == entries@[i as int].0@ && entries@[i as int].1.entries is Some {
                } else {
                    assert(last_dict(post, k) == last_dict(pre, k));
                }
            }
        }
        assert forall|k: Seq<char>| #[trigger] last_dict(post, k) is None implies items.0.get_spec(k)
            == old(items).0.get_spec(k) by {
            assert(last_dict(pre, k) is None);
        }
        i = i + 1;
    }
    assert(entries@.subrange(0, n as int) =~= entries@);
}

} // verus!
