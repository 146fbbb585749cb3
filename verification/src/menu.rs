//! The command menu: moving the cursor, choosing commands, going back.
use vstd::prelude::*;
use crate::names::NameMap;
use crate::scripts::opt_view;
use crate::state::{
    CombatState, EnemyState, ItemDictionary, ItemInfo, MainFightState, MenuState,
    MessageFightState, PlayerState, ITEMS_PER_PAGE, MENU_LAYER_ACT_COMMAND,
    MENU_LAYER_ACT_TARGET, MENU_LAYER_FIGHT_TARGET, MENU_LAYER_ITEM, MENU_LAYER_MERCY,
    MENU_LAYER_TOP, MENU_COORD_SLOTS, valid_layer,
};
use crate::text::{concat, i64_to_decimal, int_decimal, owned, str_eq};

verus! {

/// The keys pressed in this frame that the menu reads.
#[derive(Clone, Copy)]
pub struct MenuKeys {
    pub left: bool,
    pub right: bool,
    pub up: bool,
    pub down: bool,
    pub confirm: bool,
    pub cancel: bool,
}

/// An item taken from the inventory: the host heals the player by `heal_amount`.
pub struct ItemUse {
    pub name: String,
    pub heal_amount: i32,
    pub flavor_text: String,
}

/// What the host does after a menu frame.
pub enum MenuOutcome {
    /// Nothing beyond the menu's own state.
    Nothing,
    /// FIGHT was chosen: show the attack target and bar, clear the menu texts.
    OpenedAttack,
    /// An ACT or MERCY command was chosen: clear the menu texts and type this text.
    ShowText(String),
    /// An item was used: heal, then type the text `item_use_text` makes.
    UsedItem(ItemUse),
}

/// The number of items on the item page `page`.
pub open spec fn items_on_page(inv_len: int, page: int) -> int {
    let left = inv_len - page * ITEMS_PER_PAGE;
    if left <= 0 {
        0
    } else if left < ITEMS_PER_PAGE {
        left
    } else {
        ITEMS_PER_PAGE as int
    }
}

/// The remainder of `a` divided by `m` as `%` computes it on signed integers: its sign
/// follows `a`.
pub open spec fn trunc_rem(a: int, m: int) -> int {
    if a >= 0 {
        a % m
    } else {
        -((-a) % m)
    }
}

/// A cursor read as an index, as `as usize` reads it: a negative cursor wraps around to
/// the top of the `usize` range.
pub open spec fn cursor_index(c: i32) -> int {
    if c >= 0 {
        c as int
    } else {
        c + usize::MAX + 1
    }
}

/// The cursors and item page after the left key.
pub open spec fn after_left(layer: i32, cursor: int, c: Seq<i32>, page: int) -> (Seq<i32>, int) {
    if layer == MENU_LAYER_TOP {
        (c.update(0, trunc_rem(c[0] - 1 + 4, 4) as i32), page)
    } else if layer == MENU_LAYER_ACT_COMMAND {
        if cursor % 2 == 1 {
            (c.update(10, (c[10] - 1) as i32), page)
        } else {
            (c, page)
        }
    } else if layer == MENU_LAYER_ITEM {
        if cursor % 2 == 1 {
            (c.update(3, (c[3] - 1) as i32), page)
        } else if page > 0 {
            (c.update(3, (c[3] + 1) as i32), page - 1)
        } else {
            (c, page)
        }
    } else {
        (c, page)
    }
}

/// The cursors and item page after the right key.
pub open spec fn after_right(
    layer: i32,
    cursor: int,
    c: Seq<i32>,
    page: int,
    acts_len: Option<nat>,
    inv_len: int,
) -> (Seq<i32>, int) {
    if layer == MENU_LAYER_TOP {
        (c.update(0, trunc_rem(c[0] + 1, 4) as i32), page)
    } else if layer == MENU_LAYER_ACT_COMMAND {
        if cursor % 2 == 0 && acts_len is Some && cursor + 1 < acts_len->0 {
            (c.update(10, (c[10] + 1) as i32), page)
        } else {
            (c, page)
        }
    } else if layer == MENU_LAYER_ITEM {
        if cursor % 2 == 0 && cursor + 1 < items_on_page(inv_len, page) {
            (c.update(3, (c[3] + 1) as i32), page)
        } else if cursor % 2 == 1 && (page + 1) * ITEMS_PER_PAGE < inv_len {
            (c.update(3, (c[3] - 1) as i32), page + 1)
        } else {
            (c, page)
        }
    } else {
        (c, page)
    }
}

/// The cursors after the up key.
pub open spec fn after_up(layer: i32, cursor: int, c: Seq<i32>) -> Seq<i32> {
    if layer == MENU_LAYER_ACT_COMMAND && cursor >= 2 {
        c.update(10, (c[10] - 2) as i32)
    } else if layer == MENU_LAYER_ITEM && cursor >= 2 {
        c.update(3, (c[3] - 2) as i32)
    } else if layer == MENU_LAYER_MERCY && cursor > 0 {
        c.update(4, (c[4] - 1) as i32)
    } else {
        c
    }
}

/// The cursors after the down key.
pub open spec fn after_down(
    layer: i32,
    cursor: int,
    c: Seq<i32>,
    page: int,
    acts_len: Option<nat>,
    inv_len: int,
) -> Seq<i32> {
    if layer == MENU_LAYER_ACT_COMMAND {
        if acts_len is Some && cursor + 2 < acts_len->0 {
            c.update(10, (c[10] + 2) as i32)
        } else {
            c
        }
    } else if layer == MENU_LAYER_ITEM {
        if cursor + 2 < items_on_page(inv_len, page) {
            c.update(3, (c[3] + 2) as i32)
        } else {
            c
        }
    } else if layer == MENU_LAYER_MERCY {
        if cursor < 1 {
            c.update(4, (c[4] + 1) as i32)
        } else {
            c
        }
    } else {
        c
    }
}

/// The cursors and item page after this frame's arrow keys, taken in the order left,
/// right, up, down. Every key reads the cursor as it was when the frame began, as an
/// index (`cursor_index`).
pub open spec fn moved(
    layer: i32,
    c: Seq<i32>,
    page: int,
    keys: MenuKeys,
    acts_len: Option<nat>,
    inv_len: int,
) -> (Seq<i32>, int) {
    let cursor = cursor_index(c[layer as int]);
    let (c1, p1) = if keys.left {
        after_left(layer, cursor, c, page)
    } else {
        (c, page)
    };
    let (c2, p2) = if keys.right {
        after_right(layer, cursor, c1, p1, acts_len, inv_len)
    } else {
        (c1, p1)
    };
    let c3 = if keys.up {
        after_up(layer, cursor, c2)
    } else {
        c2
    };
    let c4 = if keys.down {
        after_down(layer, cursor, c3, p2, acts_len, inv_len)
    } else {
        c3
    };
    (c4, p2)
}

/// The layer after the cancel key: the selection layers go back to the top, the act
/// commands back to the act target. `layer` is the layer the frame began on.
pub open spec fn layer_after_cancel(layer: i32, current: i32, cancel: bool) -> i32 {
    if cancel && (layer == MENU_LAYER_FIGHT_TARGET || layer == MENU_LAYER_ACT_TARGET || layer
        == MENU_LAYER_ITEM || layer == MENU_LAYER_MERCY) {
        MENU_LAYER_TOP
    } else if cancel && layer == MENU_LAYER_ACT_COMMAND {
        MENU_LAYER_ACT_TARGET
    } else {
        current
    }
}

/// Whether the menu takes input: the battle waits in the menu with no message shown.
pub open spec fn menu_active(combat: CombatState) -> bool {
    combat.mn_fight == MainFightState::Menu && combat.my_fight == MessageFightState::NoMessage
}

/// Whether this frame's keys go to the menu: it is active, and neither does the editor take
/// typed text nor does the bullet preview run.
pub open spec fn takes_input(combat: CombatState, editor_typing: bool, preview_active: bool) -> bool {
    !editor_typing && !preview_active && menu_active(combat)
}

/// Whether an arrow key is pressed.
pub open spec fn any_arrow(keys: MenuKeys) -> bool {
    keys.left || keys.right || keys.up || keys.down
}

/// A cursor as an index (`cursor_index`).
fn index_of_cursor(c: i32) -> (r: usize)
    ensures
        r as int == cursor_index(c),
{
    if c >= 0 {
        c as usize
    } else {
        usize::MAX - ((-(c + 1)) as usize)
    }
}

/// Moves the cursor of the current layer by this frame's arrow keys.
fn menu_move(
    menu: &mut MenuState,
    keys: MenuKeys,
    acts_len: Option<usize>,
    inv_len: usize,
)
    requires
        old(menu).wf(),
        any_arrow(keys) ==> i32::MIN + 4 <= old(menu).coord(old(menu).menu_layer) <= i32::MAX
            - 4,
        keys.down && ((old(menu).menu_layer == MENU_LAYER_ACT_COMMAND && acts_len is Some)
            || old(menu).menu_layer == MENU_LAYER_ITEM) ==> cursor_index(
            old(menu).coord(old(menu).menu_layer),
        ) + 2 <= usize::MAX,
        old(menu).menu_layer == MENU_LAYER_ITEM ==> (old(menu).item_page + 1) * ITEMS_PER_PAGE
            <= usize::MAX,
    ensures
        ({
            let (c, p) = moved(
                old(menu).menu_layer,
                old(menu).menu_coords@,
                old(menu).item_page as int,
                keys,
                match acts_len {
                    Some(n) => Some(n as nat),
                    None => None::<nat>,
                },
                inv_len as int,
            );
            &&& final(menu).menu_coords@ == c
            &&& final(menu).item_page == p
        }),
        final(menu).menu_layer == old(menu).menu_layer,
        final(menu).dialog_text == old(menu).dialog_text,
        final(menu).wf(),
{
    let ghost acts = match acts_len {
        Some(n) => Some(n as nat),
        None => None::<nat>,
    };
    let ghost c0 = menu.menu_coords@;
    let ghost p0 = menu.item_page as int;
    let layer = menu.menu_layer;
    let li = layer as usize;
    let cv = menu.menu_coords[li];
    let cursor: usize = index_of_cursor(cv);
    if keys.left {
        if layer == MENU_LAYER_TOP {
            let v = menu.menu_coords[li];
            menu.menu_coords.set(li, (v - 1 + 4) % 4);
        } else if layer == MENU_LAYER_ACT_COMMAND {
            if cursor % 2 == 1 {
                let v = menu.menu_coords[li];
                menu.menu_coords.set(li, v - 1);
            }
        } else if layer == MENU_LAYER_ITEM {
            if cursor % 2 == 1 {
                let v = menu.menu_coords[li];
                menu.menu_coords.set(li, v - 1);
            } else if menu.item_page > 0 {
                menu.item_page = menu.item_page - 1;
                let v = menu.menu_coords[li];
                menu.menu_coords.set(li, v + 1);
            }
        }
    }
    let ghost (c1, p1) = if keys.left {
        after_left(layer, cursor as int, c0, p0)
    } else {
        (c0, p0)
    };
    assert(menu.menu_coords@ == c1 && menu.item_page == p1);
    if keys.right {
        if layer == MENU_LAYER_TOP {
            let v = menu.menu_coords[li];
            menu.menu_coords.set(li, (v + 1) % 4);
        } else if layer == MENU_LAYER_ACT_COMMAND {
            if cursor % 2 == 0 {
                if let Some(n) = acts_len {
                    if cursor + 1 < n {
                        let v = menu.menu_coords[li];
                        menu.menu_coords.set(li, v + 1);
                    }
                }
            }
        } else if layer == MENU_LAYER_ITEM {
            let on_page = page_item_count(inv_len, menu.item_page);
            if cursor % 2 == 0 && cursor + 1 < on_page {
                let v = menu.menu_coords[li];
                menu.menu_coords.set(li, v + 1);
            } else if cursor % 2 == 1 && (menu.item_page + 1) * ITEMS_PER_PAGE < inv_len {
                menu.item_page = menu.item_page + 1;
                let v = menu.menu_coords[li];
                menu.menu_coords.set(li, v - 1);
            }
        }
    }
    let ghost (c2, p2) = if keys.right {
        after_right(layer, cursor as int, c1, p1, acts, inv_len as int)
    } else {
        (c1, p1)
    };
    assert(menu.menu_coords@ == c2 && menu.item_page == p2);
    if keys.up {
        if layer == MENU_LAYER_ACT_COMMAND && cursor >= 2 {
            let v = menu.menu_coords[li];
            menu.menu_coords.set(li, v - 2);
        } else if layer == MENU_LAYER_ITEM && cursor >= 2 {
            let v = menu.menu_coords[li];
            menu.menu_coords.set(li, v - 2);
        } else if layer == MENU_LAYER_MERCY && cursor > 0 {
            let v = menu.menu_coords[li];
            menu.menu_coords.set(li, v - 1);
        }
    }
    let ghost c3 = if keys.up {
        after_up(layer, cursor as int, c2)
    } else {
        c2
    };
    assert(menu.menu_coords@ == c3);
    if keys.down {
        if layer == MENU_LAYER_ACT_COMMAND {
            if let Some(n) = acts_len {
                if cursor + 2 < n {
                    let v = menu.menu_coords[li];
                    menu.menu_coords.set(li, v + 2);
                }
            }
        } else if layer == MENU_LAYER_ITEM {
            let on_page = page_item_count(inv_len, menu.item_page);
            if cursor + 2 < on_page {
                let v = menu.menu_coords[li];
                menu.menu_coords.set(li, v + 2);
            }
        } else if layer == MENU_LAYER_MERCY {
            if cursor < 1 {
                let v = menu.menu_coords[li];
                menu.menu_coords.set(li, v + 1);
            }
        }
    }
}

/// How many items the item page `page` shows.
pub fn page_item_count(inv_len: usize, page: usize) -> (r: usize)
    requires
        page * ITEMS_PER_PAGE <= usize::MAX,
    ensures
        r == items_on_page(inv_len as int, page as int),
{
    let start = page * ITEMS_PER_PAGE;
    let left = if inv_len > start {
        inv_len - start
    } else {
        0
    };
    if left < ITEMS_PER_PAGE {
        left
    } else {
        ITEMS_PER_PAGE
    }
}

/// What `str::to_uppercase` returns for `s` (Unicode upper case mapping).
pub uninterp spec fn str_to_uppercase(s: Seq<char>) -> Seq<char>;

/// `str::to_uppercase`: the upper-case equivalent of `s` by Unicode's case mapping. Its
/// result is named here, not spelled out.
#[verifier::external_body]
fn to_uppercase(s: &str) -> (r: String)
    ensures
        r@ == str_to_uppercase(s@),
{
    s.to_uppercase()
}

/// The ACT command "Check" describes the enemy.
pub open spec fn check_text(enemy: EnemyState) -> Seq<char> {
    let name = if enemy.name@.len() == 0 {
        "ENEMY"@
    } else {
        str_to_uppercase(enemy.name@)
    };
    "* "@ + name + " - ATK "@ + int_decimal(enemy.atk as int) + " DEF "@ + int_decimal(
        enemy.def as int,
    ) + "\n* ..."@
}

/// The text an ACT command shows: the enemy's own text for it, the description for
/// "Check", or a plain message.
pub open spec fn act_text(enemy: EnemyState, cmd: Seq<char>) -> Seq<char> {
    match enemy.act_texts.get_spec(cmd) {
        Some(t) => t@,
        None => if cmd == "Check"@ {
            check_text(enemy)
        } else {
            "* You did something."@
        },
    }
}

/// The names of the act commands, if the enemy shows any.
pub open spec fn acts_view(acts: Option<&Vec<String>>) -> Option<Seq<String>> {
    match acts {
        Some(v) => Some(v@),
        None => None,
    }
}

/// The number of act commands, if the enemy shows any.
pub open spec fn acts_len_of(acts: Option<&Vec<String>>) -> Option<nat> {
    match acts {
        Some(v) => Some(v@.len()),
        None => None,
    }
}

/// Whether the act command at index `idx` exists.
pub open spec fn act_chosen(acts: Option<&Vec<String>>, idx: int) -> bool {
    acts is Some && 0 <= idx < acts->0@.len()
}

/// The text shown when the act command under cursor `idx` is confirmed.
pub open spec fn act_outcome_text(enemy: EnemyState, acts: Option<&Vec<String>>, idx: int) -> Seq<char> {
    if act_chosen(acts, idx) {
        act_text(enemy, acts->0@[idx]@)
    } else {
        "* You did something."@
    }
}

/// The text of the MERCY choice under cursor `idx` (0 spares, anything else flees).
pub open spec fn mercy_text(idx: int) -> Seq<char> {
    if idx == 0 {
        "* Spare... nothing happened."@
    } else {
        "* Escaped..."@
    }
}

/// The layer after confirming on layer `layer` with cursors `c`.
pub open spec fn layer_after_confirm(layer: i32, c: Seq<i32>, inv_len: int) -> i32 {
    if layer == MENU_LAYER_TOP {
        if c[0] == 0 {
            MENU_LAYER_FIGHT_TARGET
        } else if c[0] == 1 {
            MENU_LAYER_ACT_TARGET
        } else if c[0] == 2 && inv_len > 0 {
            MENU_LAYER_ITEM
        } else if c[0] == 3 {
            MENU_LAYER_MERCY
        } else {
            layer
        }
    } else if layer == MENU_LAYER_ACT_TARGET {
        MENU_LAYER_ACT_COMMAND
    } else {
        layer
    }
}

/// The cursors after confirming: the layer entered starts at its first entry.
pub open spec fn coords_after_confirm(layer: i32, c: Seq<i32>, inv_len: int) -> Seq<i32> {
    let next = layer_after_confirm(layer, c, inv_len);
    if next != layer {
        c.update(next as int, 0)
    } else {
        c
    }
}

/// The item page after confirming: entering the item menu starts at its first page.
pub open spec fn page_after_confirm(layer: i32, c: Seq<i32>, page: int, inv_len: int) -> int {
    if layer == MENU_LAYER_TOP && c[0] == 2 && inv_len > 0 {
        0
    } else {
        page
    }
}

/// The inventory position the item cursor points at: the page's first position plus the
/// cursor read as an index.
pub open spec fn item_index(c: Seq<i32>, page: int) -> int {
    page * ITEMS_PER_PAGE + cursor_index(c[MENU_LAYER_ITEM as int])
}

/// The item's heal amount and text, or 0 and "..." for an item the dictionary lacks.
pub open spec fn item_effect(items: ItemDictionary, name: Seq<char>) -> (int, Seq<char>) {
    match items.0.get_spec(name) {
        Some(info) => (info.heal_amount as int, info.text@),
        None => (0, "..."@),
    }
}

/// Takes the item at `idx` from the inventory.
fn use_item(player: &mut PlayerState, items: &ItemDictionary, idx: usize) -> (u: ItemUse)
    requires
        idx < old(player).inventory@.len(),
    ensures
        final(player).inventory@ == old(player).inventory@.remove(idx as int),
        final(player).lv == old(player).lv,
        final(player).name == old(player).name,
        final(player).equipped_items == old(player).equipped_items,
        u.name == old(player).inventory@[idx as int],
        (u.heal_amount as int, u.flavor_text@) == item_effect(*items, u.name@),
{
    let name = player.inventory.remove(idx);
    let (heal_amount, flavor_text) = match items.0.get(name.as_str()) {
        Some(info) => (info.heal_amount, info.text.clone()),
        None => (0, owned("...")),
    };
    ItemUse { name, heal_amount, flavor_text }
}

/// The enemy's text for an ACT command.
fn act_command_text(enemy: &EnemyState, cmd: &str) -> (t: String)
    ensures
        t@ == act_text(*enemy, cmd@),
{
    match enemy.act_texts.get(cmd) {
        Some(t) => t.clone(),
        None => {
            if str_eq(cmd, "Check") {
                let name = if enemy.name.as_str().unicode_len() == 0 {
                    owned("ENEMY")
                } else {
                    to_uppercase(enemy.name.as_str())
                };
                let mut t = concat("* ", name.as_str());
                t.append(" - ATK ");
                let atk = i64_to_decimal(enemy.atk as i64);
                t.append(atk.as_str());
                t.append(" DEF ");
                let def = i64_to_decimal(enemy.def as i64);
                t.append(def.as_str());
                t.append("\n* ...");
                t
            } else {
                owned("* You did something.")
            }
        },
    }
}

/// One frame of menu input. Keys typed into the editor, or pressed while the bullet
/// preview runs, are not for the menu. While the battle waits in the menu with no message
/// shown, the arrow keys move the cursor of the current layer (`moved`), the confirm key acts on the
/// layer the frame began on, and the cancel key goes back from it (`layer_after_cancel`).
pub fn menu_input_step(
    menu: &mut MenuState,
    combat: &mut CombatState,
    player: &mut PlayerState,
    enemy: &EnemyState,
    act_commands: Option<&Vec<String>>,
    items: &ItemDictionary,
    keys: MenuKeys,
    editor_typing: bool,
    preview_active: bool,
) -> (out: MenuOutcome)
    requires
        old(menu).wf(),
        takes_input(*old(combat), editor_typing, preview_active) && any_arrow(keys) ==> i32::MIN
            + 4 <= old(menu).coord(old(menu).menu_layer) <= i32::MAX - 4,
        takes_input(*old(combat), editor_typing, preview_active) && keys.down && ((old(
            menu,
        ).menu_layer == MENU_LAYER_ACT_COMMAND && act_commands is Some) || old(menu).menu_layer
            == MENU_LAYER_ITEM) ==> cursor_index(old(menu).coord(old(menu).menu_layer)) + 2
            <= usize::MAX,
        takes_input(*old(combat), editor_typing, preview_active) && old(menu).menu_layer
            == MENU_LAYER_ITEM ==> (old(menu).item_page + 1) * ITEMS_PER_PAGE + i32::MAX
            <= usize::MAX,
        takes_input(*old(combat), editor_typing, preview_active) && keys.confirm && old(menu).menu_layer == MENU_LAYER_ITEM
            ==> ({
            let (c, p) = moved(
                old(menu).menu_layer,
                old(menu).menu_coords@,
                old(menu).item_page as int,
                keys,
                acts_len_of(act_commands),
                old(player).inventory@.len() as int,
            );
            item_index(c, p) <= usize::MAX
        }),
    ensures
        final(menu).wf(),
        !takes_input(*old(combat), editor_typing, preview_active) ==> {
            &&& out is Nothing
            &&& *final(menu) == *old(menu)
            &&& *final(combat) == *old(combat)
            &&& *final(player) == *old(player)
        },
        takes_input(*old(combat), editor_typing, preview_active) ==> ({
            let layer = old(menu).menu_layer;
            let inv_len = old(player).inventory@.len() as int;
            let (c, p) = moved(
                layer,
                old(menu).menu_coords@,
                old(menu).item_page as int,
                keys,
                acts_len_of(act_commands),
                inv_len,
            );
            let confirm_layer = if keys.confirm {
                layer_after_confirm(layer, c, inv_len)
            } else {
                layer
            };
            let idx = item_index(c, p);
            &&& final(menu).menu_layer == layer_after_cancel(layer, confirm_layer, keys.cancel)
            &&& final(menu).menu_coords@ == if keys.confirm {
                coords_after_confirm(layer, c, inv_len)
            } else {
                c
            }
            &&& final(menu).item_page == if keys.confirm {
                page_after_confirm(layer, c, p, inv_len)
            } else {
                p
            }
            &&& !(keys.confirm && layer == MENU_LAYER_ACT_COMMAND) ==> final(menu).dialog_text
                == old(menu).dialog_text
            &&& !keys.confirm ==> out is Nothing && *final(combat) == *old(combat) && *final(player) == *old(player)
            &&& keys.confirm && (layer == MENU_LAYER_TOP || layer == MENU_LAYER_ACT_TARGET) ==> out is Nothing
                && *final(combat) == *old(combat) && *final(player) == *old(player)
            &&& keys.confirm && layer == MENU_LAYER_FIGHT_TARGET ==> {
                &&& out is OpenedAttack
                &&& final(combat).last_player_action@ == "attack"@
                &&& final(combat).last_act_command is None
                &&& final(combat).mn_fight == MainFightState::PlayerAttackBar
                &&& final(combat).my_fight == old(combat).my_fight
                &&& *final(player) == *old(player)
            }
            &&& keys.confirm && layer == MENU_LAYER_ACT_COMMAND ==> {
                let cur = cursor_index(c[MENU_LAYER_ACT_COMMAND as int]);
                &&& out matches MenuOutcome::ShowText(t) && t@ == act_outcome_text(
                    *enemy,
                    act_commands,
                    cur,
                )
                &&& final(menu).dialog_text@ == act_outcome_text(*enemy, act_commands, cur)
                &&& final(combat).my_fight == MessageFightState::PlayerActionText
                &&& final(combat).mn_fight == old(combat).mn_fight
                &&& act_chosen(act_commands, cur) ==> final(combat).last_player_action@ == "act"@
                    && opt_view(final(combat).last_act_command) == Some(
                    act_commands->0@[cur]@,
                )
                &&& !act_chosen(act_commands, cur) ==> final(combat).last_player_action
                    == old(combat).last_player_action && final(combat).last_act_command == old(combat).last_act_command
                &&& *final(player) == *old(player)
            }
            &&& keys.confirm && layer == MENU_LAYER_ITEM && idx < inv_len ==> {
                &&& out matches MenuOutcome::UsedItem(u) && u.name == old(player).inventory@[idx]
                    && (u.heal_amount as int, u.flavor_text@) == item_effect(*items, u.name@)
                &&& final(player).inventory@ == old(player).inventory@.remove(idx)
                &&& final(player).lv == old(player).lv
                &&& final(player).name == old(player).name
                &&& final(player).equipped_items == old(player).equipped_items
                &&& final(combat).last_player_action@ == "item"@
                &&& final(combat).last_act_command is None
                &&& final(combat).my_fight == MessageFightState::PlayerActionText
                &&& final(combat).mn_fight == old(combat).mn_fight
            }
            &&& keys.confirm && layer == MENU_LAYER_ITEM && idx >= inv_len ==> out is Nothing
                && *final(combat) == *old(combat) && *final(player) == *old(player)
            &&& keys.confirm && layer == MENU_LAYER_MERCY ==> {
                let m = c[MENU_LAYER_MERCY as int] as int;
                &&& out matches MenuOutcome::ShowText(t) && t@ == mercy_text(m)
                &&& final(combat).last_player_action@ == if m == 0 {
                    "spare"@
                } else {
                    "flee"@
                }
                &&& final(combat).last_act_command is None
                &&& final(combat).my_fight == MessageFightState::PlayerActionText
                &&& final(combat).mn_fight == old(combat).mn_fight
                &&& *final(player) == *old(player)
            }
            &&& final(combat).phase_name == old(combat).phase_name
            &&& final(combat).phase_turn == old(combat).phase_turn
            &&& final(combat).turn_count == old(combat).turn_count
        }),
{
    if editor_typing || preview_active {
        return MenuOutcome::Nothing;
    }
    if !(combat.mn_fight == MainFightState::Menu && combat.my_fight
        == MessageFightState::NoMessage) {
        return MenuOutcome::Nothing;
    }
    let layer = menu.menu_layer;
    let inv_len = player.inventory.len();
    let acts_len = match act_commands {
        Some(v) => Some(v.len()),
        None => None,
    };
    menu_move(menu, keys, acts_len, inv_len);
    let ghost c = menu.menu_coords@;
    let mut out = MenuOutcome::Nothing;
    if keys.confirm {
        if layer == MENU_LAYER_TOP {
            let selected = menu.menu_coords[0];
            if selected == 0 {
                menu.menu_layer = MENU_LAYER_FIGHT_TARGET;
                menu.menu_coords.set(1, 0);
            } else if selected == 1 {
                menu.menu_layer = MENU_LAYER_ACT_TARGET;
                menu.menu_coords.set(2, 0);
            } else if selected == 2 {
                if inv_len > 0 {
                    menu.menu_layer = MENU_LAYER_ITEM;
                    menu.menu_coords.set(3, 0);
                    menu.item_page = 0;
                }
            } else if selected == 3 {
                menu.menu_layer = MENU_LAYER_MERCY;
                menu.menu_coords.set(4, 0);
            }
        } else if layer == MENU_LAYER_FIGHT_TARGET {
            combat.last_player_action = owned("attack");
            combat.last_act_command = None;
            combat.mn_fight = MainFightState::PlayerAttackBar;
            out = MenuOutcome::OpenedAttack;
        } else if layer == MENU_LAYER_ACT_TARGET {
            menu.menu_layer = MENU_LAYER_ACT_COMMAND;
            menu.menu_coords.set(10, 0);
        } else if layer == MENU_LAYER_ACT_COMMAND {
            let act_idx = index_of_cursor(menu.menu_coords[10]);
            let mut text = owned("* You did something.");
            if let Some(acts) = act_commands {
                if act_idx < acts.len() {
                    let cmd = &acts[act_idx];
                    combat.last_player_action = owned("act");
                    combat.last_act_command = Some(cmd.clone());
                    text = act_command_text(enemy, cmd.as_str());
                }
            }
            combat.my_fight = MessageFightState::PlayerActionText;
            menu.dialog_text = text.clone();
            out = MenuOutcome::ShowText(text);
        } else if layer == MENU_LAYER_ITEM {
            let idx = menu.item_page * ITEMS_PER_PAGE + index_of_cursor(menu.menu_coords[3]);
            if idx < inv_len {
                combat.last_player_action = owned("item");
                combat.last_act_command = None;
                let u = use_item(player, items, idx);
                combat.my_fight = MessageFightState::PlayerActionText;
                out = MenuOutcome::UsedItem(u);
            }
        } else if layer == MENU_LAYER_MERCY {
            let mercy_idx = menu.menu_coords[4];
            combat.last_act_command = None;
            let text = if mercy_idx == 0 {
                combat.last_player_action = owned("spare");
                owned("* Spare... nothing happened.")
            } else {
                combat.last_player_action = owned("flee");
                owned("* Escaped...")
            };
            combat.my_fight = MessageFightState::PlayerActionText;
            out = MenuOutcome::ShowText(text);
        }
    }
    if keys.cancel {
        if layer == MENU_LAYER_FIGHT_TARGET || layer == MENU_LAYER_ACT_TARGET || layer
            == MENU_LAYER_ITEM || layer == MENU_LAYER_MERCY {
            menu.menu_layer = MENU_LAYER_TOP;
        } else if layer == MENU_LAYER_ACT_COMMAND {
            menu.menu_layer = MENU_LAYER_ACT_TARGET;
        }
    }
    out
}

/// The text after eating an item: the item's name, then either that the HP is full or the
/// item's text (when it has one) and the HP recovered.
pub open spec fn item_use_text_spec(name: Seq<char>, flavor: Seq<char>, maxed: bool, recovered: int) -> Seq<char> {
    let head = "* You ate the "@ + name + "."@;
    let recovered_line = "\n* You recovered "@ + int_decimal(recovered) + " HP!"@;
    if maxed {
        head + "\n* Your HP was maxed out!"@
    } else if flavor.len() > 0 {
        head + "\n* "@ + flavor + recovered_line
    } else {
        head + recovered_line
    }
}

/// The message shown after using an item. `maxed` tells whether the HP reached its
/// maximum, `recovered` how much it rose.
pub fn item_use_text(name: &str, flavor: &str, maxed: bool, recovered: i32) -> (t: String)
    ensures
        t@ == item_use_text_spec(name@, flavor@, maxed, recovered as int),
{
    let mut t = concat("* You ate the ", name);
    t.append(".");
    if maxed {
        t.append("\n* Your HP was maxed out!");
    } else {
        if flavor.unicode_len() > 0 {
            t.append("\n* ");
            t.append(flavor);
        }
        t.append("\n* You recovered ");
        let n = i64_to_decimal(recovered as i64);
        t.append(n.as_str());
        t.append(" HP!");
    }
    t
}

/// Whether the command button `index` is drawn selected: the top menu is open on it.
pub fn button_selected(combat: &CombatState, menu: &MenuState, index: i32) -> (r: bool)
    requires
        menu.wf(),
    ensures
        r == (combat.mn_fight == MainFightState::Menu && menu.menu_layer == MENU_LAYER_TOP
            && index == menu.coord(MENU_LAYER_TOP)),
{
    combat.mn_fight == MainFightState::Menu && menu.menu_layer == MENU_LAYER_TOP && index
        == menu.menu_coords[0]
}

/// Where the soul (the player's cursor) goes while the menu is drawn.
#[derive(Clone, Copy, Debug, PartialEq, Eq, Structural)]
pub enum SoulSlot {
    /// Out of sight: a message is shown, or the battle is neither in the menu nor in
    /// the enemy's attack.
    Offscreen,
    /// Left where it is: the enemy attacks and the player moves the soul.
    Free,
    /// On the command button `0..4` (any other number: at the left edge).
    Button(i32),
    /// On the line naming the enemy.
    TargetLine,
    /// On a cell of the two-column grid of act commands or items.
    Grid { col: usize, row: usize },
    /// On a line of the MERCY choices.
    Row(usize),
}

/// The soul's place for the menu's state.
pub fn soul_slot(combat: &CombatState, menu: &MenuState) -> (s: SoulSlot)
    requires
        menu.wf(),
    ensures
        (combat.mn_fight != MainFightState::Menu && combat.mn_fight
            != MainFightState::EnemyAttack) || combat.my_fight
            != MessageFightState::NoMessage ==> s is Offscreen,
        combat.mn_fight == MainFightState::EnemyAttack && combat.my_fight
            == MessageFightState::NoMessage ==> s is Free,
        menu_active(*combat) ==> {
            let l = menu.menu_layer;
            let c = menu.coord(l);
            &&& l == MENU_LAYER_TOP ==> s == SoulSlot::Button(c)
            &&& (l == MENU_LAYER_FIGHT_TARGET || l == MENU_LAYER_ACT_TARGET) ==> s is TargetLine
            &&& (l == MENU_LAYER_ACT_COMMAND || l == MENU_LAYER_ITEM) ==> s == SoulSlot::Grid {
                col: ((c as usize) % 2) as usize,
                row: ((c as usize) / 2) as usize,
            }
            &&& l == MENU_LAYER_MERCY ==> s == SoulSlot::Row(c as usize)
        },
{
    if (combat.mn_fight != MainFightState::Menu && combat.mn_fight
        != MainFightState::EnemyAttack) || combat.my_fight != MessageFightState::NoMessage {
        return SoulSlot::Offscreen;
    }
    if combat.mn_fight == MainFightState::EnemyAttack {
        return SoulSlot::Free;
    }
    let layer = menu.menu_layer;
    let c = menu.menu_coords[layer as usize];
    if layer == MENU_LAYER_TOP {
        SoulSlot::Button(c)
    } else if layer == MENU_LAYER_FIGHT_TARGET || layer == MENU_LAYER_ACT_TARGET {
        SoulSlot::TargetLine
    } else if layer == MENU_LAYER_ACT_COMMAND || layer == MENU_LAYER_ITEM {
        let idx = c as usize;
        SoulSlot::Grid { col: idx % 2, row: idx / 2 }
    } else {
        SoulSlot::Row(c as usize)
    }
}

/// Only the left key.
pub open spec fn left_only() -> MenuKeys {
    MenuKeys { left: true, right: false, up: false, down: false, confirm: false, cancel: false }
}

/// Only the right key.
pub open spec fn right_only() -> MenuKeys {
    MenuKeys { left: false, right: true, up: false, down: false, confirm: false, cancel: false }
}

/// Exactly one arrow key is pressed.
pub open spec fn one_arrow(keys: MenuKeys) -> bool {
    (keys.left as int) + (keys.right as int) + (keys.up as int) + (keys.down as int) == 1
}

/// On the top menu, left then right (or right then left) comes back to the same button.
pub proof fn law_top_left_right_inverse(
    c: Seq<i32>,
    page: int,
    acts_len: Option<nat>,
    inv_len: int,
)
    requires
        c.len() == MENU_COORD_SLOTS,
        0 <= c[0] < 4,
    ensures
        moved(
            MENU_LAYER_TOP,
            moved(MENU_LAYER_TOP, c, page, left_only(), acts_len, inv_len).0,
            page,
            right_only(),
            acts_len,
            inv_len,
        ).0 == c,
        moved(
            MENU_LAYER_TOP,
            moved(MENU_LAYER_TOP, c, page, right_only(), acts_len, inv_len).0,
            page,
            left_only(),
            acts_len,
            inv_len,
        ).0 == c,
{
    let l = moved(MENU_LAYER_TOP, c, page, left_only(), acts_len, inv_len).0;
    let r = moved(MENU_LAYER_TOP, c, page, right_only(), acts_len, inv_len).0;
    assert(moved(MENU_LAYER_TOP, l, page, right_only(), acts_len, inv_len).0 =~= c);
    assert(moved(MENU_LAYER_TOP, r, page, left_only(), acts_len, inv_len).0 =~= c);
}

/// The number of entries the cursor of a layer ranges over.
pub open spec fn layer_entries(layer: i32, acts_len: Option<nat>) -> int {
    if layer == MENU_LAYER_TOP {
        4
    } else if layer == MENU_LAYER_ACT_COMMAND {
        match acts_len {
            Some(n) => n as int,
            None => 0,
        }
    } else if layer == MENU_LAYER_ITEM {
        ITEMS_PER_PAGE as int
    } else if layer == MENU_LAYER_MERCY {
        2
    } else {
        1
    }
}

/// One arrow key never moves a cursor off the entries of its layer: the four buttons, the
/// act commands, the four slots of an item page, the two MERCY choices. (Two keys in one
/// frame can: each key reads the cursor as the frame began, so right then down from the
/// first of three act commands lands on a fourth.)
pub proof fn law_one_arrow_keeps_cursor(
    layer: i32,
    c: Seq<i32>,
    page: int,
    keys: MenuKeys,
    acts_len: Option<nat>,
    inv_len: int,
)
    requires
        valid_layer(layer),
        c.len() == MENU_COORD_SLOTS,
        0 <= c[layer as int] < layer_entries(layer, acts_len),
        c[layer as int] <= i32::MAX - 4,
        one_arrow(keys),
        page >= 0,
    ensures
        0 <= moved(layer, c, page, keys, acts_len, inv_len).0[layer as int] < layer_entries(
            layer,
            acts_len,
        ),
        moved(layer, c, page, keys, acts_len, inv_len).1 >= 0,
{
    let cursor = c[layer as int] as int;
    if keys.left {
        assert(0 <= after_left(layer, cursor, c, page).0[layer as int] < layer_entries(layer, acts_len));
    } else if keys.right {
        assert(0 <= after_right(layer, cursor, c, page, acts_len, inv_len).0[layer as int] < layer_entries(layer, acts_len));
    } else if keys.up {
        assert(0 <= after_up(layer, cursor, c)[layer as int] < layer_entries(layer, acts_len));
    } else {
        if layer == MENU_LAYER_ITEM {
            assert(items_on_page(inv_len, page) <= 4);
            assert(0 <= after_down(layer, cursor, c, page, acts_len, inv_len)[layer as int] < layer_entries(layer, acts_len));
        } else if layer == MENU_LAYER_ACT_COMMAND {
            assert(0 <= after_down(layer, cursor, c, page, acts_len, inv_len)[layer as int] < layer_entries(layer, acts_len));
        } else if layer == MENU_LAYER_MERCY {
            assert(0 <= after_down(layer, cursor, c, page, acts_len, inv_len)[layer as int] < layer_entries(layer, acts_len));
        } else {
            assert(0 <= after_down(layer, cursor, c, page, acts_len, inv_len)[layer as int] < layer_entries(layer, acts_len));
        }
    }
}

/// What confirming an ACT command shows: the enemy's own text for that command whenever it
/// defines one, whatever the command is called ("Check" too); without one, "Check" shows
/// the generated description of the enemy and any other command a plain message.
pub proof fn law_enemy_act_text_comes_first(enemy: EnemyState, acts: Option<&Vec<String>>, idx: int)
    ensures
        forall|cmd: Seq<char>|
            #[trigger] enemy.act_texts.get_spec(cmd) is Some ==> act_text(enemy, cmd)
                == enemy.act_texts.get_spec(cmd)->0@,
        enemy.act_texts.get_spec("Check"@) is None ==> act_text(enemy, "Check"@) == check_text(enemy),
        forall|cmd: Seq<char>|
            #[trigger] enemy.act_texts.get_spec(cmd) is None && cmd != "Check"@ ==> act_text(enemy, cmd)
                == "* You did something."@,
        act_chosen(acts, idx) && enemy.act_texts.get_spec(acts->0@[idx]@) is Some ==> act_outcome_text(
            enemy,
            acts,
            idx,
        ) == enemy.act_texts.get_spec(acts->0@[idx]@)->0@,
{
}

/// The generated description names the enemy in capitals ("ENEMY" when it has no name) and
/// gives its attack and defense in decimal, in that order.
pub proof fn law_check_text_describes_enemy(enemy: EnemyState)
    ensures
        enemy.name@.len() == 0 ==> check_text(enemy) == "* "@ + "ENEMY"@ + " - ATK "@ + int_decimal(
            enemy.atk as int,
        ) + " DEF "@ + int_decimal(enemy.def as int) + "\n* ..."@,
        enemy.name@.len() > 0 ==> check_text(enemy) == "* "@ + str_to_uppercase(enemy.name@)
            + " - ATK "@ + int_decimal(enemy.atk as int) + " DEF "@ + int_decimal(enemy.def as int)
            + "\n* ..."@,
{
}

/// The cancel key goes back one step: from a target, the items or MERCY to the top menu,
/// from the act commands to the act target; on the top menu, or without the key, the layer
/// stays.
pub proof fn law_cancel_goes_back(current: i32)
    ensures
        layer_after_cancel(MENU_LAYER_FIGHT_TARGET, current, true) == MENU_LAYER_TOP,
        layer_after_cancel(MENU_LAYER_ACT_TARGET, current, true) == MENU_LAYER_TOP,
        layer_after_cancel(MENU_LAYER_ITEM, current, true) == MENU_LAYER_TOP,
        layer_after_cancel(MENU_LAYER_MERCY, current, true) == MENU_LAYER_TOP,
        layer_after_cancel(MENU_LAYER_ACT_COMMAND, current, true) == MENU_LAYER_ACT_TARGET,
        layer_after_cancel(MENU_LAYER_TOP, current, true) == current,
        forall|layer: i32| #[trigger] layer_after_cancel(layer, current, false) == current,
{
}

/// Confirming on the top menu enters the layer of the button under the cursor (FIGHT, ACT,
/// ITEM only with something carried, MERCY), and on the act target the act commands; the
/// layer entered starts at its first entry and no other cursor moves; entering the items
/// starts at their first page.
pub proof fn law_confirm_enters(layer: i32, c: Seq<i32>, page: int, inv_len: int)
    requires
        c.len() == MENU_COORD_SLOTS,
        valid_layer(layer),
    ensures
        layer == MENU_LAYER_TOP && c[0] == 0 ==> layer_after_confirm(layer, c, inv_len) == MENU_LAYER_FIGHT_TARGET,
        layer == MENU_LAYER_TOP && c[0] == 1 ==> layer_after_confirm(layer, c, inv_len) == MENU_LAYER_ACT_TARGET,
        layer == MENU_LAYER_TOP && c[0] == 2 && inv_len > 0 ==> layer_after_confirm(layer, c, inv_len)
            == MENU_LAYER_ITEM && page_after_confirm(layer, c, page, inv_len) == 0,
        layer == MENU_LAYER_TOP && c[0] == 2 && inv_len <= 0 ==> layer_after_confirm(layer, c, inv_len)
            == MENU_LAYER_TOP,
        layer == MENU_LAYER_TOP && c[0] == 3 ==> layer_after_confirm(layer, c, inv_len) == MENU_LAYER_MERCY,
        layer == MENU_LAYER_ACT_TARGET ==> layer_after_confirm(layer, c, inv_len) == MENU_LAYER_ACT_COMMAND,
        layer_after_confirm(layer, c, inv_len) != layer ==> coords_after_confirm(layer, c, inv_len)[layer_after_confirm(
            layer,
            c,
            inv_len,
        ) as int] == 0,
        forall|i: int|
            0 <= i < c.len() && i != layer_after_confirm(layer, c, inv_len) ==> #[trigger] coords_after_confirm(
                layer,
                c,
                inv_len,
            )[i] == c[i],
{
}

/// MERCY's first choice spares (and nothing happens), the other flees.
pub proof fn law_mercy_choices(idx: int)
    ensures
        idx == 0 ==> mercy_text(idx) == "* Spare... nothing happened."@,
        idx != 0 ==> mercy_text(idx) == "* Escaped..."@,
{
}

/// An item the dictionary defines heals by its heal amount and shows its text; one it
/// lacks heals nothing and shows "...".
pub proof fn law_item_effect(items: ItemDictionary, name: Seq<char>)
    ensures
        items.0.get_spec(name) is Some ==> item_effect(items, name) == (
            items.0.get_spec(name)->0.heal_amount as int,
            items.0.get_spec(name)->0.text@,
        ),
        items.0.get_spec(name) is None ==> item_effect(items, name) == (0int, "..."@),
{
}

} // verus!
