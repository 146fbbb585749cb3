//! What the menu draws, and when it has to draw it again.
use vstd::prelude::*;
use crate::menu::{items_on_page, menu_active};
use crate::scripts::strings_view;
use crate::state::{
    CombatState, EnemyState, MenuState, PlayerState, ITEMS_PER_PAGE, MENU_LAYER_ACT_COMMAND,
    MENU_LAYER_ACT_TARGET, MENU_LAYER_FIGHT_TARGET, MENU_LAYER_ITEM, MENU_LAYER_MERCY,
    MENU_LAYER_TOP,
};
use crate::text::{concat, i64_to_decimal, int_decimal, nat_decimal, owned, str_eq, u64_to_decimal};

verus! {

/// One text line of the menu: its slot number on the layer and its text. On the act and
/// item layers slot `i` sits in column `i % 2`, row `i / 2`; slot 99 is the page label.
pub struct MenuLine {
    pub index: i32,
    pub text: String,
}

/// The slot of the item page label.
pub const PAGE_LABEL_INDEX: i32 = 99;

/// The views of menu lines.
pub open spec fn lines_view(lines: Seq<MenuLine>) -> Seq<(int, Seq<char>)> {
    lines.map_values(|l: MenuLine| (l.index as int, l.text@))
}

/// The name the target line shows.
pub open spec fn target_name(name: Seq<char>) -> Seq<char> {
    if name.len() == 0 {
        "Enemy"@
    } else {
        name
    }
}

/// The lines one bulleted entry per name, numbered from 0.
pub open spec fn bullet_lines(names: Seq<Seq<char>>) -> Seq<(int, Seq<char>)> {
    Seq::new(names.len(), |i: int| (i, "* "@ + names[i]))
}

/// The lines a menu layer shows (the top layer shows the dialog text instead).
pub open spec fn menu_lines(
    layer: i32,
    enemy_name: Seq<char>,
    acts: Option<Seq<Seq<char>>>,
    inventory: Seq<Seq<char>>,
    page: int,
) -> Seq<(int, Seq<char>)> {
    if layer == MENU_LAYER_FIGHT_TARGET || layer == MENU_LAYER_ACT_TARGET {
        seq![(0, "* "@ + target_name(enemy_name))]
    } else if layer == MENU_LAYER_ACT_COMMAND {
        match acts {
            Some(a) => bullet_lines(a),
            None => seq![],
        }
    } else if layer == MENU_LAYER_ITEM {
        let start = page * ITEMS_PER_PAGE;
        let count = items_on_page(inventory.len() as int, page);
        let entries = if count == 0 {
            seq![]
        } else {
            bullet_lines(inventory.subrange(start, start + count))
        };
        entries + seq![(PAGE_LABEL_INDEX as int, "   PAGE "@ + nat_decimal((page + 1) as nat))]
    } else if layer == MENU_LAYER_MERCY {
        seq![(0, "* Spare"@), (1, "* Flee"@)]
    } else {
        seq![]
    }
}

/// Appends a bulleted line for each name.
fn push_bullets(lines: &mut Vec<MenuLine>, names: &Vec<String>, from: usize, to: usize)
    requires
        from <= to <= names@.len(),
        to - from <= i32::MAX,
    ensures
        lines_view(final(lines)@) == lines_view(old(lines)@) + bullet_lines(
            strings_view(names@).subrange(from as int, to as int),
        ),
{
    let mut i: usize = from;
    while i < to
        invariant
            from <= i <= to,
            to <= names@.len(),
            to - from <= i32::MAX,
            lines_view(lines@) == lines_view(old(lines)@) + bullet_lines(
                strings_view(names@).subrange(from as int, i as int),
            ),
        decreases to - i,
    {
        let ghost before = lines@;
        let t = concat("* ", names[i].as_str());
        lines.push(MenuLine { index: (i - from) as i32, text: t });
        assert(lines_view(lines@) =~= lines_view(old(lines)@) + bullet_lines(
            strings_view(names@).subrange(from as int, i + 1),
        )) by {
            assert(lines_view(lines@) =~= lines_view(before).push(((i - from) as int, t@)));
        }
        i = i + 1;
    }
}

/// The lines the menu shows on its current layer.
pub fn menu_render_lines(
    menu: &MenuState,
    enemy: &EnemyState,
    act_commands: Option<&Vec<String>>,
    player: &PlayerState,
) -> (lines: Vec<MenuLine>)
    requires
        menu.wf(),
        (menu.item_page + 1) * ITEMS_PER_PAGE <= usize::MAX,
        act_commands is Some ==> act_commands->0@.len() <= i32::MAX,
    ensures
        lines_view(lines@) == menu_lines(
            menu.menu_layer,
            enemy.name@,
            match act_commands {
                Some(a) => Some(strings_view(a@)),
                None => None,
            },
            strings_view(player.inventory@),
            menu.item_page as int,
        ),
{
    let layer = menu.menu_layer;
    let mut lines: Vec<MenuLine> = Vec::new();
    if layer == MENU_LAYER_FIGHT_TARGET || layer == MENU_LAYER_ACT_TARGET {
        let name = if enemy.name.as_str().unicode_len() == 0 {
            owned("Enemy")
        } else {
            enemy.name.clone()
        };
        lines.push(MenuLine { index: 0, text: concat("* ", name.as_str()) });
        assert(lines_view(lines@) =~= seq![(0int, "* "@ + target_name(enemy.name@))]);
    } else if layer == MENU_LAYER_ACT_COMMAND {
        if let Some(acts) = act_commands {
            push_bullets(&mut lines, acts, 0, acts.len());
            assert(strings_view(acts@).subrange(0, acts@.len() as int) =~= strings_view(acts@));
            assert(lines_view(lines@) =~= bullet_lines(strings_view(acts@)));
        }
    } else if layer == MENU_LAYER_ITEM {
        let start = menu.item_page * ITEMS_PER_PAGE;
        let inv_len = player.inventory.len();
        let count = if inv_len > start {
            if inv_len - start < ITEMS_PER_PAGE {
                inv_len - start
            } else {
                ITEMS_PER_PAGE
            }
        } else {
            0
        };
        if count > 0 {
            push_bullets(&mut lines, &player.inventory, start, start + count);
        }
        let mut label = owned("   PAGE ");
        let n = u64_to_decimal((menu.item_page + 1) as u64);
        label.append(n.as_str());
        let ghost before = lines@;
        lines.push(MenuLine { index: PAGE_LABEL_INDEX, text: label });
        assert(lines_view(lines@) =~= lines_view(before).push(
            (PAGE_LABEL_INDEX as int, label@),
        ));
    } else if layer == MENU_LAYER_MERCY {
        lines.push(MenuLine { index: 0, text: owned("* Spare") });
        lines.push(MenuLine { index: 1, text: owned("* Flee") });
        assert(lines_view(lines@) =~= seq![(0int, "* Spare"@), (1int, "* Flee"@)]);
    }
    lines
}

/// The status line's level label, `LV <lv>`.
pub fn lv_text(lv: i32) -> (t: String)
    ensures
        t@ == "LV "@ + int_decimal(lv as int),
{
    let n = i64_to_decimal(lv as i64);
    concat("LV ", n.as_str())
}

/// What the menu's drawing depends on; when it has not changed, nothing is drawn again.
pub struct MenuRenderKey {
    pub menu_layer: i32,
    pub menu_coords: Vec<i32>,
    pub item_page: usize,
    pub dialog_text: String,
    pub enemy_name: String,
    pub enemy_hp: i32,
    pub enemy_max_hp: i32,
    pub act_commands: Vec<String>,
    pub inventory: Vec<String>,
}

/// The plain values of a render key.
pub open spec fn key_view(k: MenuRenderKey) -> (
    i32,
    Seq<i32>,
    usize,
    Seq<char>,
    Seq<char>,
    i32,
    i32,
    Seq<Seq<char>>,
    Seq<Seq<char>>,
) {
    (
        k.menu_layer,
        k.menu_coords@,
        k.item_page,
        k.dialog_text@,
        k.enemy_name@,
        k.enemy_hp,
        k.enemy_max_hp,
        strings_view(k.act_commands@),
        strings_view(k.inventory@),
    )
}

/// The key last drawn, if the menu is on screen.
pub struct MenuRenderCache {
    pub key: Option<MenuRenderKey>,
}

/// Whether two lists of strings are equal, entry by entry.
pub fn strings_eq(a: &Vec<String>, b: &Vec<String>) -> (r: bool)
    ensures
        r == (strings_view(a@) == strings_view(b@)),
{
    if a.len() != b.len() {
        assert(strings_view(a@).len() != strings_view(b@).len());
        return false;
    }
    let n = a.len();
    let mut i: usize = 0;
    while i < n
        invariant
            n == a@.len(),
            n == b@.len(),
            i <= n,
            forall|j: int| 0 <= j < i ==> a@[j]@ == b@[j]@,
        decreases n - i,
    {
        if !str_eq(a[i].as_str(), b[i].as_str()) {
            assert(strings_view(a@)[i as int] != strings_view(b@)[i as int]);
            return false;
        }
        i = i + 1;
    }
    assert(strings_view(a@) =~= strings_view(b@));
    true
}

/// Whether two lists of numbers are equal.
fn ints_eq(a: &Vec<i32>, b: &Vec<i32>) -> (r: bool)
    ensures
        r == (a@ == b@),
{
    if a.len() != b.len() {
        return false;
    }
    let n = a.len();
    let mut i: usize = 0;
    while i < n
        invariant
            n == a@.len(),
            n == b@.len(),
            i <= n,
            forall|j: int| 0 <= j < i ==> a@[j] == b@[j],
        decreases n - i,
    {
        if a[i] != b[i] {
            return false;
        }
        i = i + 1;
    }
    assert(a@ =~= b@);
    true
}

/// Whether two render keys hold the same values.
pub fn same_render_key(a: &MenuRenderKey, b: &MenuRenderKey) -> (r: bool)
    ensures
        r == (key_view(*a) == key_view(*b)),
{
    a.menu_layer == b.menu_layer && ints_eq(&a.menu_coords, &b.menu_coords) && a.item_page
        == b.item_page && str_eq(a.dialog_text.as_str(), b.dialog_text.as_str()) && str_eq(
        a.enemy_name.as_str(),
        b.enemy_name.as_str(),
    ) && a.enemy_hp == b.enemy_hp && a.enemy_max_hp == b.enemy_max_hp && strings_eq(
        &a.act_commands,
        &b.act_commands,
    ) && strings_eq(&a.inventory, &b.inventory)
}

/// The battle restarts: no menu is on screen any more, so the next frame draws it afresh.
pub fn forget_drawn_menu(cache: &mut MenuRenderCache)
    ensures
        final(cache).key is None,
{
    cache.key = None;
}

/// What the host draws for the menu this frame.
pub enum RenderDecision {
    /// Nothing changes on screen.
    Keep,
    /// The menu is left: remove its lines.
    Clear,
    /// Same menu as drawn; the top layer lost its dialog text, so type it again.
    RetypeDialog,
    /// The menu changed: remove its lines and draw them again.
    Redraw,
}

/// What drawing the menu does in a frame, given the key last drawn (if the menu is on
/// screen), whether the menu is active, this frame's key, and whether the dialog text is on
/// screen: the decision, and the key remembered afterwards.
pub open spec fn render_step(
    cached: Option<MenuRenderKey>,
    active: bool,
    key: MenuRenderKey,
    dialog_present: bool,
) -> (RenderDecision, Option<MenuRenderKey>) {
    if !active {
        if cached is Some {
            (RenderDecision::Clear, None)
        } else {
            (RenderDecision::Keep, None)
        }
    } else if cached is Some && key_view(cached->0) == key_view(key) {
        (
            if key.menu_layer == MENU_LAYER_TOP && !dialog_present {
                RenderDecision::RetypeDialog
            } else {
                RenderDecision::Keep
            },
            cached,
        )
    } else {
        (RenderDecision::Redraw, Some(key))
    }
}

/// Decides whether the menu has to be drawn again, and remembers what was drawn.
/// `dialog_present` tells whether the dialog text is on screen.
pub fn menu_render_decision(
    cache: &mut MenuRenderCache,
    combat: &CombatState,
    key: MenuRenderKey,
    dialog_present: bool,
) -> (d: RenderDecision)
    ensures
        (d, final(cache).key) == render_step(old(cache).key, menu_active(*combat), key, dialog_present),
        !menu_active(*combat) && old(cache).key is Some ==> d is Clear && final(cache).key is None,
        !menu_active(*combat) && old(cache).key is None ==> d is Keep && final(cache).key is None,
        menu_active(*combat) && old(cache).key is Some && key_view(old(cache).key->0) == key_view(
            key,
        ) ==> final(cache).key == old(cache).key && (if key.menu_layer == MENU_LAYER_TOP
            && !dialog_present {
            d is RetypeDialog
        } else {
            d is Keep
        }),
        menu_active(*combat) && !(old(cache).key is Some && key_view(old(cache).key->0)
            == key_view(key)) ==> d is Redraw && final(cache).key == Some(key),
{
    if !(combat.mn_fight == crate::state::MainFightState::Menu && combat.my_fight
        == crate::state::MessageFightState::NoMessage) {
        if cache.key.is_some() {
            cache.key = None;
            return RenderDecision::Clear;
        }
        return RenderDecision::Keep;
    }
    let same = match &cache.key {
        Some(k) => same_render_key(k, &key),
        None => false,
    };
    if same {
        if key.menu_layer == MENU_LAYER_TOP && !dialog_present {
            RenderDecision::RetypeDialog
        } else {
            RenderDecision::Keep
        }
    } else {
        cache.key = Some(key);
        RenderDecision::Redraw
    }
}

/// Once the menu has been drawn for a key, it is not drawn again for that key while the
/// menu stays active: the next frame keeps it (or only types the dialog text again), and
/// remembers the same key.
pub proof fn law_drawn_menu_not_redrawn(
    cached: Option<MenuRenderKey>,
    key: MenuRenderKey,
    dialog_first: bool,
    dialog_next: bool,
)
    ensures
        ({
            let (_, after_first) = render_step(cached, true, key, dialog_first);
            let (d, after_next) = render_step(after_first, true, key, dialog_next);
            d != RenderDecision::Redraw && after_next == after_first
        }),
{
}

/// What each layer shows: on both target layers one line in slot 0 naming the enemy ("Enemy"
/// when it has no name); on the act command layer one line per command, in order, in
/// slots 0, 1, ...; on the MERCY layer "Spare" and "Flee"; nothing on the top layer.
pub proof fn law_layer_lines(
    layer: i32,
    enemy_name: Seq<char>,
    acts: Option<Seq<Seq<char>>>,
    inventory: Seq<Seq<char>>,
    page: int,
)
    ensures
        layer == MENU_LAYER_FIGHT_TARGET || layer == MENU_LAYER_ACT_TARGET ==> {
            let lines = menu_lines(layer, enemy_name, acts, inventory, page);
            &&& lines.len() == 1
            &&& lines[0].0 == 0
            &&& enemy_name.len() > 0 ==> lines[0].1 == "* "@ + enemy_name
            &&& enemy_name.len() == 0 ==> lines[0].1 == "* "@ + "Enemy"@
        },
        layer == MENU_LAYER_ACT_COMMAND && acts is Some ==> {
            let lines = menu_lines(layer, enemy_name, acts, inventory, page);
            &&& lines.len() == acts->0.len()
            &&& forall|i: int| 0 <= i < lines.len() ==> #[trigger] lines[i] == (i, "* "@ + acts->0[i])
        },
        layer == MENU_LAYER_MERCY ==> menu_lines(layer, enemy_name, acts, inventory, page) == seq![
            (0int, "* Spare"@),
            (1int, "* Flee"@),
        ],
        layer == MENU_LAYER_TOP ==> menu_lines(layer, enemy_name, acts, inventory, page).len() == 0,
{
}

/// The item layer shows the items of its page, in inventory order in slots 0, 1, ..., then
/// the page label "PAGE n" (pages counted from 1) in its own slot.
pub proof fn law_item_layer_lines(enemy_name: Seq<char>, acts: Option<Seq<Seq<char>>>, inventory: Seq<Seq<char>>, page: int)
    requires
        page >= 0,
    ensures
        ({
            let lines = menu_lines(MENU_LAYER_ITEM, enemy_name, acts, inventory, page);
            let count = items_on_page(inventory.len() as int, page);
            &&& lines.len() == count + 1
            &&& forall|i: int| 0 <= i < count ==> #[trigger] lines[i] == (i, "* "@ + inventory[page
                * ITEMS_PER_PAGE + i])
            &&& lines[count] == (PAGE_LABEL_INDEX as int, "   PAGE "@ + nat_decimal((page + 1) as nat))
        }),
{
}

} // verus!
