//! Phase scripts: which phase a battle starts in, what the scripts are told, and how
//! what they answer changes the battle.
use vstd::prelude::*;
use crate::scripts::{
    ScriptStore, get_phase_api_script, get_phase_script, list_phase_names, is_least,
    phase_script_path, opt_view, lemma_listed_phase_file, lemma_lookup_finds, phase_names, script_path, strings_view,
};
use crate::state::{
    CombatState, EnemyState, MainFightState, MenuState, MessageFightState, MENU_LAYER_TOP,
};
use crate::answer::{ScriptValue, opt_seq, text_entry, text_value, texts_entry, texts_value};
use crate::text::{
    concat, lemma_seq_lt_irreflexive, lemma_seq_lt_transitive, owned, seq_lt, str_eq, str_lt,
};

verus! {

/// The speech bubble shapes that ship with the engine.
pub open spec fn bubble_shapes() -> Seq<Seq<char>> {
    seq![
        "blconabove"@,
        "blconbelow"@,
        "blconsm"@,
        "blconsm2"@,
        "blconsm2_shrt"@,
        "blconsm_plus1"@,
        "blconsm_shrt"@,
        "blcontiny"@,
        "blcontinyabove"@,
        "blcontl"@,
        "blconwd"@,
        "blconwdshrt"@,
        "blconwdshrt_l"@,
    ]
}

/// Whether `name` is one of the speech bubble shapes that ship with the engine.
pub open spec fn is_bubble_shape(name: Seq<char>) -> bool {
    bubble_shapes().contains(name)
}

/// The texture a phase script's bubble name stands for: a shipped shape names its
/// sprite under `texture/blcon/`, any other name is a texture path already.
pub open spec fn bubble_texture_spec(name: Seq<char>) -> Seq<char> {
    if is_bubble_shape(name) {
        "texture/blcon/spr_"@ + name + ".png"@
    } else {
        name
    }
}

/// The texture path for a speech bubble name.
pub fn resolve_bubble_texture_name(name: &str) -> (r: String)
    ensures
        r@ == bubble_texture_spec(name@),
{
    let shapes = [
        "blconabove",
        "blconbelow",
        "blconsm",
        "blconsm2",
        "blconsm2_shrt",
        "blconsm_plus1",
        "blconsm_shrt",
        "blcontiny",
        "blcontinyabove",
        "blcontl",
        "blconwd",
        "blconwdshrt",
        "blconwdshrt_l",
    ];
    assert(shapes@.map_values(|s: &str| s@) =~= bubble_shapes());
    let mut known = false;
    let mut i: usize = 0;
    while i < 13
        invariant
            i <= 13,
            shapes@.len() == 13,
            shapes@.map_values(|s: &str| s@) == bubble_shapes(),
            known == exists|j: int| 0 <= j < i && name@ == #[trigger] bubble_shapes()[j],
        decreases 13 - i,
    {
        assert(shapes@.map_values(|s: &str| s@)[i as int] == shapes@[i as int]@);
        if str_eq(name, shapes[i]) {
            known = true;
        }
        i = i + 1;
    }
    if known {
        let mut r = concat("texture/blcon/spr_", name);
        r.append(".png");
        r
    } else {
        owned(name)
    }
}

/// A name of `names` that none of them sorts before; empty when there is none. This is
/// the first name once the names are sorted.
pub fn least_name(names: &Vec<String>) -> (r: String)
    ensures
        names@.len() == 0 ==> r@.len() == 0,
        names@.len() > 0 ==> is_least(r@, strings_view(names@)),
{
    let n = names.len();
    if n == 0 {
        return String::new();
    }
    let mut best: usize = 0;
    let mut i: usize = 1;
    proof {
        lemma_seq_lt_irreflexive(names@[0]@);
    }
    while i < n
        invariant
            n == names@.len(),
            1 <= i <= n,
            best < i,
            forall|j: int| 0 <= j < i ==> !seq_lt(#[trigger] names@[j]@, names@[best as int]@),
        decreases n - i,
    {
        if str_lt(names[i].as_str(), names[best].as_str()) {
            proof {
                assert forall|j: int| 0 <= j < i + 1 implies !seq_lt(
                    #[trigger] names@[j]@,
                    names@[i as int]@,
                ) by {
                    if j == i {
                        lemma_seq_lt_irreflexive(names@[i as int]@);
                    } else if seq_lt(names@[j]@, names@[i as int]@) {
                        lemma_seq_lt_transitive(
                            names@[j]@,
                            names@[i as int]@,
                            names@[best as int]@,
                        );
                    }
                }
            }
            best = i;
        }
        i = i + 1;
    }
    let r = names[best].clone();
    proof {
        let v = strings_view(names@);
        assert(v[best as int] == r@);
        assert forall|j: int| 0 <= j < v.len() implies !seq_lt(#[trigger] v[j], r@) by {
            assert(v[j] == names@[j]@);
        }
    }
    r
}

/// Whether a project has a script for the phase `name`.
pub open spec fn phase_exists(store: ScriptStore, project: Seq<char>, name: Seq<char>) -> bool {
    name.len() > 0 && store.text_at(phase_script_path(project, name)) is Some
}

/// The phase the enemy's status asks for, when the project has a script for it.
pub fn requested_phase(store: &ScriptStore, project: &str, requested: &str) -> (r: Option<String>)
    ensures
        phase_exists(*store, project@, requested@) ==> r is Some && r->0@ == requested@,
        !phase_exists(*store, project@, requested@) ==> r is None,
{
    if requested.unicode_len() > 0 {
        if get_phase_script(store, project, requested).is_some() {
            return Some(owned(requested));
        }
    }
    None
}

/// Whether `r` is the phase a battle falls back to: the first phase name in sorted order, or
/// none when the project has no phase.
pub open spec fn fallback_phase(store: ScriptStore, project: Seq<char>, r: Seq<char>) -> bool {
    let names = phase_names(store.files@, project);
    &&& names.len() == 0 ==> r.len() == 0
    &&& names.len() > 0 ==> is_least(r, names)
}

/// The phase a battle starts in: the requested one when its script exists; else the one
/// the phase API names (`api_phase`, asked of it only in that case) when its script
/// exists; else the first phase name in sorted order, or none at all.
pub fn resolve_initial_phase(
    store: &ScriptStore,
    project: &str,
    requested: &str,
    api_phase: Option<String>,
) -> (r: String)
    ensures
        phase_exists(*store, project@, requested@) ==> r@ == requested@,
        !phase_exists(*store, project@, requested@) && api_phase is Some && phase_exists(
            *store,
            project@,
            api_phase->0@,
        ) ==> r@ == api_phase->0@,
        !phase_exists(*store, project@, requested@) && (api_phase is None || !phase_exists(
            *store,
            project@,
            api_phase->0@,
        )) ==> {
            let names = phase_names(store.files@, project@);
            &&& names.len() == 0 ==> r@.len() == 0
            &&& names.len() > 0 ==> is_least(r@, names)
        },
        r@.len() == 0 || phase_exists(*store, project@, r@),
{
    if let Some(p) = requested_phase(store, project, requested) {
        return p;
    }
    if let Some(a) = api_phase {
        if let Some(p) = requested_phase(store, project, a.as_str()) {
            return p;
        }
    }
    let names = list_phase_names(store, project);
    let r = least_name(&names);
    proof {
        let v = phase_names(store.files@, project@);
        let w = strings_view(names@);
        if w.len() > 0 {
            assert(w.contains(r@));
            assert(v.contains(r@));
            let k = choose|k: int| 0 <= k < v.len() && v[k] == r@;
            lemma_listed_phase_file(store.files@, project@, k);
            let i = choose|i: int| 0 <= i < store.files@.len() && #[trigger] store.files@[i].path@
                == phase_script_path(project@, v[k]);
            lemma_lookup_finds(store.files@, i);
            assert forall|j: int| 0 <= j < v.len() implies !seq_lt(#[trigger] v[j], r@) by {
                assert(v.contains(v[j]));
                assert(w.contains(v[j]));
                let m = choose|m: int| 0 <= m < w.len() && w[m] == v[j];
            }
        } else if v.len() > 0 {
            assert(v.contains(v[0]));
            assert(w.contains(v[0]));
        }
    }
    r
}

/// The scripts a phase update runs: that of the current phase and the phase API. None when
/// there is no current phase or either script is missing, and then nothing is updated.
pub fn phase_update_scripts(store: &ScriptStore, project: &str, combat: &CombatState) -> (r: Option<(String, String)>)
    ensures
        match r {
            Some((phase_script, api_script)) => {
                &&& phase_exists(*store, project@, combat.phase_name@)
                &&& store.text_at(phase_script_path(project@, combat.phase_name@))
                    == Some(phase_script@)
                &&& store.text_at(script_path(project@, "phases"@, "phase_api.wep"@)) == Some(
                    api_script@,
                )
            },
            None => !phase_exists(*store, project@, combat.phase_name@) || store.text_at(
                script_path(project@, "phases"@, "phase_api.wep"@),
            ) is None,
        },
{
    let phase_script = match get_phase_script(store, project, combat.phase_name.as_str()) {
        Some(s) => s,
        None => return None,
    };
    let api_script = match get_phase_api_script(store, project) {
        Some(s) => s,
        None => return None,
    };
    Some((phase_script, api_script))
}

/// When a phase script's `update` runs: at the start of the battle, at the start of each
/// enemy turn, and after the player's hit has been applied.
#[derive(Clone, Copy, Debug, PartialEq, Eq, Structural)]
pub enum PhaseTrigger {
    Start,
    Turn,
    Damage,
}

/// The trigger's name as the scripts see it.
pub open spec fn trigger_text(t: PhaseTrigger) -> Seq<char> {
    match t {
        PhaseTrigger::Start => "start"@,
        PhaseTrigger::Turn => "turn"@,
        PhaseTrigger::Damage => "damage"@,
    }
}

/// The trigger's name: `start`, `turn` or `damage`.
pub fn trigger_name(t: PhaseTrigger) -> (s: String)
    ensures
        s@ == trigger_text(t),
{
    match t {
        PhaseTrigger::Start => owned("start"),
        PhaseTrigger::Turn => owned("turn"),
        PhaseTrigger::Damage => owned("damage"),
    }
}

/// What a phase script is told about the battle.
pub struct PhaseContext {
    pub turn: i32,
    pub phase_turn: i32,
    pub enemy_hp: i32,
    pub enemy_max_hp: i32,
    pub enemy_name: String,
    pub phase: String,
    pub trigger: String,
    pub is_first_turn: bool,
    pub is_phase_start: bool,
    pub is_start: bool,
    pub is_turn_start: bool,
    pub is_damage_applied: bool,
    pub last_player_action: Option<String>,
    pub last_act_command: Option<String>,
}

/// The context a phase update hands the scripts, for the given trigger.
pub fn phase_context(enemy: &EnemyState, combat: &CombatState, trigger: PhaseTrigger) -> (c: PhaseContext)
    ensures
        c.turn == combat.turn_count,
        c.phase_turn == combat.phase_turn,
        c.enemy_hp == enemy.hp,
        c.enemy_max_hp == enemy.max_hp,
        c.enemy_name@ == enemy.name@,
        c.phase@ == combat.phase_name@,
        c.trigger@ == trigger_text(trigger),
        c.is_first_turn == (combat.turn_count == 1),
        c.is_phase_start == (combat.phase_turn == 1),
        c.is_start == (trigger == PhaseTrigger::Start),
        c.is_turn_start == (trigger == PhaseTrigger::Turn),
        c.is_damage_applied == (trigger == PhaseTrigger::Damage),
        combat.last_player_action@.len() == 0 ==> c.last_player_action is None,
        combat.last_player_action@.len() > 0 ==> c.last_player_action is Some
            && c.last_player_action->0@ == combat.last_player_action@,
        opt_view(c.last_act_command) == opt_view(combat.last_act_command),
{
    let last_player_action = if combat.last_player_action.as_str().unicode_len() == 0 {
        None
    } else {
        Some(combat.last_player_action.clone())
    };
    let last_act_command = match &combat.last_act_command {
        Some(c) => Some(c.clone()),
        None => None,
    };
    PhaseContext {
        turn: combat.turn_count,
        phase_turn: combat.phase_turn,
        enemy_hp: enemy.hp,
        enemy_max_hp: enemy.max_hp,
        enemy_name: enemy.name.clone(),
        phase: combat.phase_name.clone(),
        trigger: trigger_name(trigger),
        is_first_turn: combat.turn_count == 1,
        is_phase_start: combat.phase_turn == 1,
        is_start: trigger == PhaseTrigger::Start,
        is_turn_start: trigger == PhaseTrigger::Turn,
        is_damage_applied: trigger == PhaseTrigger::Damage,
        last_player_action,
        last_act_command,
    }
}

/// A value the scripts are handed: an integer, a string, a truth value, or a string or
/// Python's `None`.
pub enum ContextValue {
    Int(i32),
    Text(String),
    Flag(bool),
    OptText(Option<String>),
}

/// The context's entries as the scripts see them, by key.
pub open spec fn context_entries_spec(c: PhaseContext) -> Seq<(Seq<char>, ContextValue)> {
    seq![
        ("turn"@, ContextValue::Int(c.turn)),
        ("phaseTurn"@, ContextValue::Int(c.phase_turn)),
        ("enemyHp"@, ContextValue::Int(c.enemy_hp)),
        ("enemyMaxHp"@, ContextValue::Int(c.enemy_max_hp)),
        ("enemyName"@, ContextValue::Text(c.enemy_name)),
        ("phase"@, ContextValue::Text(c.phase)),
        ("trigger"@, ContextValue::Text(c.trigger)),
        ("isFirstTurn"@, ContextValue::Flag(c.is_first_turn)),
        ("isPhaseStart"@, ContextValue::Flag(c.is_phase_start)),
        ("isStart"@, ContextValue::Flag(c.is_start)),
        ("isTurnStart"@, ContextValue::Flag(c.is_turn_start)),
        ("isDamageApplied"@, ContextValue::Flag(c.is_damage_applied)),
        ("lastPlayerAction"@, ContextValue::OptText(c.last_player_action)),
        ("lastActCommand"@, ContextValue::OptText(c.last_act_command)),
    ]
}

/// The entries of the dictionary the phase scripts are handed (`context_entries_spec`).
pub fn context_entries(c: &PhaseContext) -> (r: Vec<(String, ContextValue)>)
    ensures
        r@.map_values(|p: (String, ContextValue)| (p.0@, p.1)) == context_entries_spec(*c),
{
    let mut r: Vec<(String, ContextValue)> = Vec::new();
    r.push((owned("turn"), ContextValue::Int(c.turn)));
    r.push((owned("phaseTurn"), ContextValue::Int(c.phase_turn)));
    r.push((owned("enemyHp"), ContextValue::Int(c.enemy_hp)));
    r.push((owned("enemyMaxHp"), ContextValue::Int(c.enemy_max_hp)));
    r.push((owned("enemyName"), ContextValue::Text(c.enemy_name.clone())));
    r.push((owned("phase"), ContextValue::Text(c.phase.clone())));
    r.push((owned("trigger"), ContextValue::Text(c.trigger.clone())));
    r.push((owned("isFirstTurn"), ContextValue::Flag(c.is_first_turn)));
    r.push((owned("isPhaseStart"), ContextValue::Flag(c.is_phase_start)));
    r.push((owned("isStart"), ContextValue::Flag(c.is_start)));
    r.push((owned("isTurnStart"), ContextValue::Flag(c.is_turn_start)));
    r.push((owned("isDamageApplied"), ContextValue::Flag(c.is_damage_applied)));
    let last_action = match &c.last_player_action {
        Some(t) => Some(t.clone()),
        None => None,
    };
    r.push((owned("lastPlayerAction"), ContextValue::OptText(last_action)));
    let last_act = match &c.last_act_command {
        Some(t) => Some(t.clone()),
        None => None,
    };
    r.push((owned("lastActCommand"), ContextValue::OptText(last_act)));
    assert(r@.map_values(|p: (String, ContextValue)| (p.0@, p.1)) =~= context_entries_spec(*c));
    r
}

/// The value under `key` among context entries: that of the first with this key.
pub open spec fn context_lookup(e: Seq<(Seq<char>, ContextValue)>, key: Seq<char>) -> Option<ContextValue>
    decreases e.len(),
{
    if e.len() == 0 {
        None
    } else if e[0].0 == key {
        Some(e[0].1)
    } else {
        context_lookup(e.drop_first(), key)
    }
}

/// What a phase script answered; a field is `None` where its key was absent or unreadable.
pub struct PhaseUpdate {
    pub dialog_text: Option<String>,
    pub attack_patterns: Option<Vec<String>>,
    pub bubble_messages: Option<Vec<String>>,
    pub bubble_message: Option<String>,
    pub bubble_texture: Option<String>,
    pub next_phase: Option<String>,
}

/// The enemy after a phase update, but for the bubble texture (stated by its view).
pub open spec fn enemy_after_phase(e: EnemyState, u: PhaseUpdate, texture: String) -> EnemyState {
    EnemyState {
        dialog_text: match u.dialog_text {
            Some(d) => d,
            None => e.dialog_text,
        },
        attacks: match u.attack_patterns {
            Some(a) => a,
            None => e.attacks,
        },
        bubble_messages: match u.bubble_messages {
            Some(m) => m,
            None => e.bubble_messages,
        },
        bubble_message_override: match u.bubble_message {
            Some(m) => if m@.len() > 0 {
                Some(m)
            } else {
                e.bubble_message_override
            },
            None => e.bubble_message_override,
        },
        bubble_texture: texture,
        ..e
    }
}

/// Whether the enemy went from `e0` to `e1` and the menu from `m0` to `m1` by taking in
/// the answer `u`: the enemy as `enemy_after_phase` says, with the bubble texture the
/// answer names (a shipped shape's sprite or the path itself), and the menu's dialog text
/// replaced only while the top menu waits for the player.
pub open spec fn answer_applied(
    e0: EnemyState,
    e1: EnemyState,
    m0: MenuState,
    m1: MenuState,
    c: CombatState,
    u: PhaseUpdate,
) -> bool {
    &&& e1 == enemy_after_phase(e0, u, e1.bubble_texture)
    &&& match u.bubble_texture {
        Some(t) => e1.bubble_texture@ == bubble_texture_spec(t@),
        None => e1.bubble_texture == e0.bubble_texture,
    }
    &&& m1.menu_layer == m0.menu_layer
    &&& m1.menu_coords == m0.menu_coords
    &&& m1.item_page == m0.item_page
    &&& m1.dialog_text == if u.dialog_text is Some && c.mn_fight == MainFightState::Menu
        && c.my_fight == MessageFightState::NoMessage && m0.menu_layer == MENU_LAYER_TOP {
        u.dialog_text->0
    } else {
        m0.dialog_text
    }
}

/// Applies a phase script's answer to the enemy and, while the top menu waits for the
/// player, to the menu's dialog text. Returns the phase the script asks to move to.
pub fn apply_phase_state(
    enemy: &mut EnemyState,
    combat: &CombatState,
    menu: &mut MenuState,
    update: PhaseUpdate,
) -> (next: Option<String>)
    ensures
        answer_applied(*old(enemy), *final(enemy), *old(menu), *final(menu), *combat, update),
        next == update.next_phase,
{
    let PhaseUpdate {
        dialog_text,
        attack_patterns,
        bubble_messages,
        bubble_message,
        bubble_texture,
        next_phase,
    } = update;
    if let Some(d) = dialog_text {
        if combat.mn_fight == MainFightState::Menu && combat.my_fight
            == MessageFightState::NoMessage && menu.menu_layer == MENU_LAYER_TOP {
            menu.dialog_text = d.clone();
        }
        enemy.dialog_text = d;
    }
    if let Some(a) = attack_patterns {
        enemy.attacks = a;
    }
    if let Some(m) = bubble_messages {
        enemy.bubble_messages = m;
    }
    if let Some(m) = bubble_message {
        if m.as_str().unicode_len() > 0 {
            enemy.bubble_message_override = Some(m);
        }
    }
    if let Some(t) = bubble_texture {
        enemy.bubble_texture = resolve_bubble_texture_name(t.as_str());
    }
    next_phase
}

/// The phase turn a new phase starts at: 1 when it begins at a turn's start (that turn
/// counts), 0 when it begins at the battle's start or after a hit.
pub open spec fn restart_turn(t: PhaseTrigger) -> i32 {
    if t == PhaseTrigger::Turn {
        1
    } else {
        0
    }
}

/// The turn flow after a phase update run for `trigger` answered `next`, and whether the
/// update must run once more. When the script asked for another phase, the battle moves to
/// it and its turn count restarts (`restart_turn`), and the update runs again in the new
/// phase at the battle's or a turn's start (not after a hit); otherwise nothing changes.
pub open spec fn phase_after(c: CombatState, trigger: PhaseTrigger, next: Option<String>) -> (CombatState, bool) {
    if next is Some && next->0@ != c.phase_name@ {
        (
            CombatState { phase_name: next->0, phase_turn: restart_turn(trigger), ..c },
            trigger != PhaseTrigger::Damage,
        )
    } else {
        (c, false)
    }
}

/// Takes in the phase a phase update for `trigger` asked for (`phase_after`). Returns
/// whether the update must run once more.
pub fn after_phase_update(combat: &mut CombatState, trigger: PhaseTrigger, next: Option<String>) -> (rerun: bool)
    ensures
        (*final(combat), rerun) == phase_after(*old(combat), trigger, next),
{
    match next {
        Some(p) => {
            if str_eq(p.as_str(), combat.phase_name.as_str()) {
                false
            } else {
                combat.phase_name = p;
                combat.phase_turn = if trigger == PhaseTrigger::Turn {
                    1
                } else {
                    0
                };
                trigger != PhaseTrigger::Damage
            }
        },
        None => false,
    }
}

/// The phase updates of a battle: a new turn is counted, and if the turn's update moves to
/// another phase, that phase starts at turn 1 and its update runs too; a hit's update that
/// moves to another phase starts it at turn 0 and runs nothing more; the battle's start
/// moves the same way, at turn 0, and runs the new phase's update.
pub proof fn law_phase_turns_restart(c: CombatState, next: String)
    requires
        next@ != c.phase_name@,
    ensures
        phase_after(c, PhaseTrigger::Turn, Some(next)) == (CombatState {
            phase_name: next,
            phase_turn: 1,
            ..c
        }, true),
        phase_after(c, PhaseTrigger::Damage, Some(next)) == (CombatState {
            phase_name: next,
            phase_turn: 0,
            ..c
        }, false),
        phase_after(c, PhaseTrigger::Start, Some(next)) == (CombatState {
            phase_name: next,
            phase_turn: 0,
            ..c
        }, true),
        forall|t: PhaseTrigger| #[trigger] phase_after(c, t, None) == (c, false),
        forall|t: PhaseTrigger| #[trigger] phase_after(c, t, Some(c.phase_name)) == (c, false),
{
}

/// Every phase the project's listing names has a script that `get_phase_script` finds.
pub proof fn law_listed_phases_have_scripts(store: ScriptStore, project: Seq<char>, k: int)
    requires
        0 <= k < phase_names(store.files@, project).len(),
    ensures
        phase_exists(store, project, phase_names(store.files@, project)[k]),
{
    lemma_listed_phase_file(store.files@, project, k);
    let i = choose|i: int| 0 <= i < store.files@.len() && #[trigger] store.files@[i].path@
        == phase_script_path(project, phase_names(store.files@, project)[k]);
    lemma_lookup_finds(store.files@, i);
}

/// Taking in a phase answer: the dialog text, attack patterns and bubble messages it holds
/// replace the enemy's, a non-empty bubble message becomes the bubble's message, and what it
/// lacks stays as it was; the enemy's stats, name, act commands and texts never change. The
/// menu shows the new dialog text only while the top menu waits for the player.
pub proof fn law_phase_answer_replaces(
    e0: EnemyState,
    e1: EnemyState,
    m0: MenuState,
    m1: MenuState,
    c: CombatState,
    u: PhaseUpdate,
)
    requires
        answer_applied(e0, e1, m0, m1, c, u),
    ensures
        u.bubble_messages is Some ==> e1.bubble_messages == u.bubble_messages->0,
        u.bubble_messages is None ==> e1.bubble_messages == e0.bubble_messages,
        u.dialog_text is Some ==> e1.dialog_text == u.dialog_text->0,
        u.dialog_text is None ==> e1.dialog_text == e0.dialog_text,
        u.attack_patterns is Some ==> e1.attacks == u.attack_patterns->0,
        u.attack_patterns is None ==> e1.attacks == e0.attacks,
        u.bubble_message is Some && u.bubble_message->0@.len() > 0 ==> e1.bubble_message_override
            == u.bubble_message,
        !(u.bubble_message is Some && u.bubble_message->0@.len() > 0)
            ==> e1.bubble_message_override == e0.bubble_message_override,
        u.bubble_texture is None ==> e1.bubble_texture == e0.bubble_texture,
        e1.hp == e0.hp && e1.max_hp == e0.max_hp && e1.atk == e0.atk && e1.def == e0.def,
        e1.name == e0.name && e1.act_commands == e0.act_commands && e1.act_texts == e0.act_texts,
        e1.body_texture == e0.body_texture && e1.head_texture == e0.head_texture,
        e1.tachie_script == e0.tachie_script,
        u.dialog_text is Some && c.mn_fight == MainFightState::Menu && c.my_fight
            == MessageFightState::NoMessage && m0.menu_layer == MENU_LAYER_TOP ==> m1.dialog_text
            == u.dialog_text->0,
        m0.menu_layer != MENU_LAYER_TOP ==> m1.dialog_text == m0.dialog_text,
        m1.menu_layer == m0.menu_layer && m1.menu_coords == m0.menu_coords,
{
}

/// Whether `u` is the phase answer the dictionary `d` gives: `dialogText`, `bubbleMessage`,
/// `bubbleTexture` and `nextPhase` as strings, `attackPatterns` and `bubbleMessages` as
/// lists of strings.
pub open spec fn update_read(u: PhaseUpdate, d: Seq<(String, ScriptValue)>) -> bool {
    &&& u.dialog_text == text_entry(d, "dialogText"@)
    &&& opt_seq(u.attack_patterns) == texts_entry(d, "attackPatterns"@)
    &&& opt_seq(u.bubble_messages) == texts_entry(d, "bubbleMessages"@)
    &&& u.bubble_message == text_entry(d, "bubbleMessage"@)
    &&& u.bubble_texture == text_entry(d, "bubbleTexture"@)
    &&& u.next_phase == text_entry(d, "nextPhase"@)
}

/// The phase answer a phase script's dictionary `d` gives (`update_read`).
pub fn phase_update_from(d: &Vec<(String, ScriptValue)>) -> (u: PhaseUpdate)
    ensures
        update_read(u, d@),
{
    PhaseUpdate {
        dialog_text: text_value(d, "dialogText"),
        attack_patterns: texts_value(d, "attackPatterns"),
        bubble_messages: texts_value(d, "bubbleMessages"),
        bubble_message: text_value(d, "bubbleMessage"),
        bubble_texture: text_value(d, "bubbleTexture"),
        next_phase: text_value(d, "nextPhase"),
    }
}

/// Taking in a phase script's dictionary `d`: the lists under `bubbleMessages` and
/// `attackPatterns` and the string under `dialogText` become the enemy's, what `d` lacks
/// stays, and the phase asked for is the `nextPhase` string.
pub proof fn law_phase_answer_keys(
    e0: EnemyState,
    e1: EnemyState,
    m0: MenuState,
    m1: MenuState,
    c: CombatState,
    u: PhaseUpdate,
    d: Seq<(String, ScriptValue)>,
)
    requires
        update_read(u, d),
        answer_applied(e0, e1, m0, m1, c, u),
    ensures
        texts_entry(d, "bubbleMessages"@) is Some ==> e1.bubble_messages@ == texts_entry(
            d,
            "bubbleMessages"@,
        )->0,
        texts_entry(d, "bubbleMessages"@) is None ==> e1.bubble_messages == e0.bubble_messages,
        texts_entry(d, "attackPatterns"@) is Some ==> e1.attacks@ == texts_entry(d, "attackPatterns"@)->0,
        texts_entry(d, "attackPatterns"@) is None ==> e1.attacks == e0.attacks,
        text_entry(d, "dialogText"@) is Some ==> e1.dialog_text == text_entry(d, "dialogText"@)->0,
        text_entry(d, "dialogText"@) is None ==> e1.dialog_text == e0.dialog_text,
        text_entry(d, "bubbleMessage"@) is Some && text_entry(d, "bubbleMessage"@)->0@.len() > 0
            ==> e1.bubble_message_override == text_entry(d, "bubbleMessage"@),
        text_entry(d, "bubbleTexture"@) is None ==> e1.bubble_texture == e0.bubble_texture,
        u.next_phase == text_entry(d, "nextPhase"@),
{
    law_phase_answer_replaces(e0, e1, m0, m1, c, u);
}

proof fn lemma_context_lookup_at(e: Seq<(Seq<char>, ContextValue)>, i: int, key: Seq<char>)
    requires
        0 <= i < e.len(),
        e[i].0 == key,
        forall|j: int| 0 <= j < i ==> e[j].0 != key,
    ensures
        context_lookup(e, key) == Some(e[i].1),
    decreases i,
{
    if i > 0 {
        lemma_context_lookup_at(e.drop_first(), i - 1, key);
    }
}

/// The scripts find each part of a phase update's context under its key: the turn count
/// under `turn`, the phase's turn under `phaseTurn`, the enemy's hit points, maximum and
/// name under `enemyHp`, `enemyMaxHp` and `enemyName`, the phase under `phase`, the trigger's
/// name under `trigger` and the trigger's flags, and the player's last action and act
/// command (or `None`) under `lastPlayerAction` and `lastActCommand`.
pub proof fn law_context_keys(c: PhaseContext)
    ensures
        context_lookup(context_entries_spec(c), "turn"@) == Some(ContextValue::Int(c.turn)),
        context_lookup(context_entries_spec(c), "phaseTurn"@) == Some(ContextValue::Int(c.phase_turn)),
        context_lookup(context_entries_spec(c), "enemyHp"@) == Some(ContextValue::Int(c.enemy_hp)),
        context_lookup(context_entries_spec(c), "enemyMaxHp"@) == Some(ContextValue::Int(c.enemy_max_hp)),
        context_lookup(context_entries_spec(c), "enemyName"@) == Some(ContextValue::Text(c.enemy_name)),
        context_lookup(context_entries_spec(c), "phase"@) == Some(ContextValue::Text(c.phase)),
        context_lookup(context_entries_spec(c), "trigger"@) == Some(ContextValue::Text(c.trigger)),
        context_lookup(context_entries_spec(c), "isFirstTurn"@) == Some(ContextValue::Flag(c.is_first_turn)),
        context_lookup(context_entries_spec(c), "isPhaseStart"@) == Some(ContextValue::Flag(c.is_phase_start)),
        context_lookup(context_entries_spec(c), "isStart"@) == Some(ContextValue::Flag(c.is_start)),
        context_lookup(context_entries_spec(c), "isTurnStart"@) == Some(ContextValue::Flag(c.is_turn_start)),
        context_lookup(context_entries_spec(c), "isDamageApplied"@) == Some(
            ContextValue::Flag(c.is_damage_applied),
        ),
        context_lookup(context_entries_spec(c), "lastPlayerAction"@) == Some(
            ContextValue::OptText(c.last_player_action),
        ),
        context_lookup(context_entries_spec(c), "lastActCommand"@) == Some(
            ContextValue::OptText(c.last_act_command),
        ),
{
    reveal_strlit("turn");
    reveal_strlit("phaseTurn");
    reveal_strlit("enemyHp");
    reveal_strlit("enemyMaxHp");
    reveal_strlit("enemyName");
    reveal_strlit("phase");
    reveal_strlit("trigger");
    reveal_strlit("isFirstTurn");
    reveal_strlit("isPhaseStart");
    reveal_strlit("isStart");
    reveal_strlit("isTurnStart");
    reveal_strlit("isDamageApplied");
    reveal_strlit("lastPlayerAction");
    reveal_strlit("lastActCommand");
    let e = context_entries_spec(c);
    assert("enemyName"@[0] != "phaseTurn"@[0]);
    assert("trigger"@[0] != "enemyHp"@[0]);
    assert("isStart"@[0] != "enemyHp"@[0]);
    assert("isStart"@[0] != "trigger"@[0]);
    assert("isTurnStart"@[2] != "isFirstTurn"@[2]);
    assert(e[0].0 == "turn"@);
    assert(e[1].0 == "phaseTurn"@);
    assert(e[2].0 == "enemyHp"@);
    assert(e[3].0 == "enemyMaxHp"@);
    assert(e[4].0 == "enemyName"@);
    assert(e[5].0 == "phase"@);
    assert(e[6].0 == "trigger"@);
    assert(e[7].0 == "isFirstTurn"@);
    assert(e[8].0 == "isPhaseStart"@);
    assert(e[9].0 == "isStart"@);
    assert(e[10].0 == "isTurnStart"@);
    assert(e[11].0 == "isDamageApplied"@);
    assert(e[12].0 == "lastPlayerAction"@);
    assert(e[13].0 == "lastActCommand"@);
    lemma_context_lookup_at(e, 0, "turn"@);
    lemma_context_lookup_at(e, 1, "phaseTurn"@);
    lemma_context_lookup_at(e, 2, "enemyHp"@);
    lemma_context_lookup_at(e, 3, "enemyMaxHp"@);
    lemma_context_lookup_at(e, 4, "enemyName"@);
    lemma_context_lookup_at(e, 5, "phase"@);
    lemma_context_lookup_at(e, 6, "trigger"@);
    lemma_context_lookup_at(e, 7, "isFirstTurn"@);
    lemma_context_lookup_at(e, 8, "isPhaseStart"@);
    lemma_context_lookup_at(e, 9, "isStart"@);
    lemma_context_lookup_at(e, 10, "isTurnStart"@);
    lemma_context_lookup_at(e, 11, "isDamageApplied"@);
    lemma_context_lookup_at(e, 12, "lastPlayerAction"@);
    lemma_context_lookup_at(e, 13, "lastActCommand"@);
}

} // verus!
