//! The turn flow of a battle: the enemy's speech, its attack, the player's attack and the
//! end of a turn.
use rand::Rng;
use vstd::prelude::*;
use crate::phase::{phase_after, PhaseTrigger};
use crate::scripts::{
    get_danmaku_api_script, get_danmaku_script, named_script_path, opt_view, script_path,
    strings_view, ScriptStore,
};
use crate::state::{
    CombatState, EnemyState, MainFightState, MenuState, MessageFightState, MENU_LAYER_TOP,
};
use crate::text::{concat, i64_to_decimal, int_decimal, owned, u64_to_decimal};

verus! {

/// `rand::thread_rng().gen_range(0..len)`: a number drawn uniformly below `len`. It
/// panics on an empty range, which `requires` leaves out; of its value only the range is
/// promised, since it comes from the thread's random generator.
#[verifier::external_body]
fn random_below(len: usize) -> (r: usize)
    requires
        len > 0,
    ensures
        r < len,
{
    rand::thread_rng().gen_range(0..len)
}

/// The bubble sprite used when the phase scripts name none.
pub open spec fn default_bubble_texture() -> Seq<char> {
    "texture/blcon/spr_blconsm.png"@
}

/// A new turn: the turn and phase-turn counters go up by one.
pub open spec fn turn_started(c: CombatState) -> CombatState {
    CombatState {
        turn_count: (c.turn_count + 1) as i32,
        phase_turn: (c.phase_turn + 1) as i32,
        ..c
    }
}

/// The enemy's bubble is dismissed: its attack begins.
pub open spec fn attack_begun(c: CombatState) -> CombatState {
    CombatState { mn_fight: MainFightState::EnemyAttack, ..c }
}

/// The enemy's attack is over: the turn is cleaned up.
pub open spec fn attack_ended(c: CombatState) -> CombatState {
    CombatState { mn_fight: MainFightState::TurnCleanup, ..c }
}

/// The turn ends: the menu waits for the player again.
pub open spec fn back_to_menu(c: CombatState) -> CombatState {
    CombatState { mn_fight: MainFightState::Menu, my_fight: MessageFightState::NoMessage, ..c }
}

/// The player's action text is dismissed: the enemy speaks.
pub open spec fn text_dismissed(c: CombatState) -> CombatState {
    CombatState { mn_fight: MainFightState::EnemyDialog, my_fight: MessageFightState::NoMessage, ..c }
}

/// The damage number is gone: a defeated enemy leaves the battle at the menu, any other
/// enemy speaks.
pub open spec fn damage_shown(c: CombatState, enemy_hp: i32) -> CombatState {
    if enemy_hp <= 0 {
        CombatState { mn_fight: MainFightState::Menu, ..c }
    } else {
        CombatState { mn_fight: MainFightState::EnemyDialog, ..c }
    }
}

/// The FIGHT bar was stopped: the hit is being resolved.
pub open spec fn attack_resolving(c: CombatState) -> CombatState {
    CombatState { mn_fight: MainFightState::PlayerAttackResolve, ..c }
}

/// What the enemy-dialog part of the turn does this frame.
#[derive(Clone, Copy, Debug, PartialEq, Eq, Structural)]
pub enum FlowStep {
    /// Nothing: not the enemy's dialog, or its bubble is still being read.
    Idle,
    /// A new turn starts: the counters went up; the host runs the phase update for
    /// `update` (the turn's start), then shows the bubble and types the message.
    StartTurn { update: PhaseTrigger },
    /// The bubble was read and dismissed: the enemy attacks.
    BeginAttack,
}

/// One frame of the enemy's dialog. Nothing happens while the editor takes typed text.
/// Without a bubble on screen a new turn starts (the turn and phase-turn counters go up);
/// once the bubble's text is fully shown, the confirm key dismisses it and the enemy's
/// attack begins.
pub fn battle_flow_step(
    combat: &mut CombatState,
    bubble_present: bool,
    bubble_finished: bool,
    confirm: bool,
    editor_typing: bool,
) -> (s: FlowStep)
    requires
        !editor_typing && old(combat).mn_fight == MainFightState::EnemyDialog && !bubble_present
            ==> old(combat).turn_count < i32::MAX && old(combat).phase_turn < i32::MAX,
    ensures
        editor_typing || old(combat).mn_fight != MainFightState::EnemyDialog ==> s is Idle
            && *final(combat) == *old(combat),
        !editor_typing && old(combat).mn_fight == MainFightState::EnemyDialog && !bubble_present
            ==> s == (FlowStep::StartTurn { update: PhaseTrigger::Turn }) && *final(combat)
            == turn_started(*old(combat)),
        !editor_typing && old(combat).mn_fight == MainFightState::EnemyDialog && bubble_present
            && bubble_finished && confirm ==> s is BeginAttack && *final(combat) == attack_begun(
            *old(combat),
        ),
        !editor_typing && old(combat).mn_fight == MainFightState::EnemyDialog && bubble_present
            && !(bubble_finished && confirm) ==> s is Idle && *final(combat) == *old(combat),
{
    if editor_typing || combat.mn_fight != MainFightState::EnemyDialog {
        return FlowStep::Idle;
    }
    if !bubble_present {
        combat.turn_count = combat.turn_count + 1;
        combat.phase_turn = combat.phase_turn + 1;
        return FlowStep::StartTurn { update: PhaseTrigger::Turn };
    }
    if bubble_finished && confirm {
        combat.mn_fight = MainFightState::EnemyAttack;
        FlowStep::BeginAttack
    } else {
        FlowStep::Idle
    }
}

/// The sprite of the enemy's speech bubble.
pub fn bubble_texture(enemy: &EnemyState) -> (t: String)
    ensures
        enemy.bubble_texture@.len() == 0 ==> t@ == default_bubble_texture(),
        enemy.bubble_texture@.len() > 0 ==> t@ == enemy.bubble_texture@,
{
    if enemy.bubble_texture.as_str().unicode_len() == 0 {
        owned("texture/blcon/spr_blconsm.png")
    } else {
        enemy.bubble_texture.clone()
    }
}

/// The message of the enemy's bubble: the one a phase script set for this turn (used
/// once), else the message at `roll` among the enemy's messages, else "...".
pub fn pick_bubble_message(enemy: &mut EnemyState, roll: usize) -> (m: String)
    requires
        old(enemy).bubble_message_override is None && old(enemy).bubble_messages@.len() > 0
            ==> roll < old(enemy).bubble_messages@.len(),
    ensures
        *final(enemy) == (EnemyState { bubble_message_override: None, ..*old(enemy) }),
        old(enemy).bubble_message_override is Some ==> m == old(enemy).bubble_message_override->0,
        old(enemy).bubble_message_override is None && old(enemy).bubble_messages@.len() == 0
            ==> m@ == "..."@,
        old(enemy).bubble_message_override is None && old(enemy).bubble_messages@.len() > 0
            ==> m@ == old(enemy).bubble_messages@[roll as int]@,
{
    if let Some(m) = enemy.bubble_message_override.take() {
        m
    } else if enemy.bubble_messages.len() == 0 {
        owned("...")
    } else {
        enemy.bubble_messages[roll].clone()
    }
}

/// The message of the enemy's bubble, drawing one of its messages at random when no
/// phase script set one for this turn.
pub fn choose_bubble_message(enemy: &mut EnemyState) -> (m: String)
    ensures
        *final(enemy) == (EnemyState { bubble_message_override: None, ..*old(enemy) }),
        old(enemy).bubble_message_override is Some ==> m == old(enemy).bubble_message_override->0,
        old(enemy).bubble_message_override is None && old(enemy).bubble_messages@.len() == 0
            ==> m@ == "..."@,
        old(enemy).bubble_message_override is None && old(enemy).bubble_messages@.len() > 0
            ==> strings_view(old(enemy).bubble_messages@).contains(m@),
{
    let roll = if enemy.bubble_message_override.is_none() && enemy.bubble_messages.len() > 0 {
        random_below(enemy.bubble_messages.len())
    } else {
        0
    };
    let m = pick_bubble_message(enemy, roll);
    proof {
        if old(enemy).bubble_message_override is None && old(enemy).bubble_messages@.len() > 0 {
            assert(strings_view(old(enemy).bubble_messages@)[roll as int] == m@);
        }
    }
    m
}

/// The attack pattern at `roll` among the enemy's patterns, or `frogJump` when it has none.
pub fn pick_attack_pattern(enemy: &EnemyState, roll: usize) -> (p: String)
    requires
        enemy.attacks@.len() > 0 ==> roll < enemy.attacks@.len(),
    ensures
        enemy.attacks@.len() == 0 ==> p@ == "frogJump"@,
        enemy.attacks@.len() > 0 ==> p@ == enemy.attacks@[roll as int]@,
{
    if enemy.attacks.len() == 0 {
        owned("frogJump")
    } else {
        enemy.attacks[roll].clone()
    }
}

/// The attack pattern of this turn, drawn at random among the enemy's patterns.
pub fn choose_attack_pattern(enemy: &EnemyState) -> (p: String)
    ensures
        enemy.attacks@.len() == 0 ==> p@ == "frogJump"@,
        enemy.attacks@.len() > 0 ==> strings_view(enemy.attacks@).contains(p@),
{
    let roll = if enemy.attacks.len() > 0 {
        random_below(enemy.attacks.len())
    } else {
        0
    };
    let p = pick_attack_pattern(enemy, roll);
    proof {
        if enemy.attacks@.len() > 0 {
            assert(strings_view(enemy.attacks@)[roll as int] == p@);
        }
    }
    p
}

/// What the host loads to run a bullet pattern, given which of the two modules (the pattern
/// and the bullet API) it has already loaded and keeps.
pub enum DanmakuLoad {
    /// Load these sources (none for a module already loaded), the API first.
    Ready { api_source: Option<String>, script_source: Option<String> },
    /// The pattern's script is not loaded and the project has none: no attack this turn.
    MissingScript,
    /// The API is not loaded and the project has none: no attack this turn.
    MissingApi,
}

/// The sources to load for the bullet pattern `script_name` (`danmaku/<name>.py`) and the
/// bullet API (`danmaku/api.py`). A module already loaded is not read again. The pattern's
/// script is looked for first.
pub fn danmaku_sources(
    store: &ScriptStore,
    project: &str,
    script_name: &str,
    api_loaded: bool,
    script_loaded: bool,
) -> (r: DanmakuLoad)
    ensures
        ({
            let script_text = if script_name@.len() == 0 {
                None
            } else {
                store.text_at(named_script_path(project@, "danmaku"@, script_name@, ".py"@))
            };
            let api_text = store.text_at(script_path(project@, "danmaku"@, "api.py"@));
            if !script_loaded && script_text is None {
                r is MissingScript
            } else if !api_loaded && api_text is None {
                r is MissingApi
            } else {
                r matches DanmakuLoad::Ready { api_source, script_source } && opt_view(api_source)
                    == (if api_loaded { None } else { api_text }) && opt_view(script_source) == (
                if script_loaded {
                    None
                } else {
                    script_text
                })
            }
        }),
{
    let script_source = if script_loaded {
        None
    } else {
        match get_danmaku_script(store, project, script_name) {
            Some(t) => Some(t),
            None => return DanmakuLoad::MissingScript,
        }
    };
    let api_source = if api_loaded {
        None
    } else {
        match get_danmaku_api_script(store, project) {
            Some(t) => Some(t),
            None => return DanmakuLoad::MissingApi,
        }
    };
    DanmakuLoad::Ready { api_source, script_source }
}

/// What the attack part of the turn does this frame.
pub enum TurnStep {
    /// Not the enemy's attack, nor the end of a turn.
    Idle,
    /// The attack goes on.
    Attacking,
    /// The attack's time is up: the host removes the bullets.
    AttackOver,
    /// The turn ended: the menu is back, showing the enemy's dialog text.
    BackToMenu,
}

/// One frame of the enemy's attack and the turn's end. `time_up` tells whether the attack's
/// timer ran out this frame. When the attack is over the turn is cleaned up, and on the
/// frame after that the menu opens again on its top layer with the enemy's dialog text.
pub fn turn_manager_step(
    combat: &mut CombatState,
    menu: &mut MenuState,
    enemy: &EnemyState,
    time_up: bool,
) -> (s: TurnStep)
    ensures
        old(combat).mn_fight == MainFightState::EnemyAttack && !time_up ==> s is Attacking
            && *final(combat) == *old(combat) && *final(menu) == *old(menu),
        old(combat).mn_fight == MainFightState::EnemyAttack && time_up ==> s is AttackOver
            && *final(combat) == attack_ended(*old(combat)) && *final(menu) == *old(menu),
        old(combat).mn_fight == MainFightState::TurnCleanup ==> s is BackToMenu && *final(combat)
            == back_to_menu(*old(combat)) && final(menu).menu_layer == MENU_LAYER_TOP && final(menu).dialog_text@
            == enemy.dialog_text@ && final(menu).menu_coords == old(menu).menu_coords
            && final(menu).item_page == old(menu).item_page,
        old(combat).mn_fight != MainFightState::EnemyAttack && old(combat).mn_fight
            != MainFightState::TurnCleanup ==> s is Idle && *final(combat) == *old(combat)
            && *final(menu) == *old(menu),
{
    if combat.mn_fight == MainFightState::EnemyAttack {
        if time_up {
            combat.mn_fight = MainFightState::TurnCleanup;
            TurnStep::AttackOver
        } else {
            TurnStep::Attacking
        }
    } else if combat.mn_fight == MainFightState::TurnCleanup {
        combat.mn_fight = MainFightState::Menu;
        combat.my_fight = MessageFightState::NoMessage;
        menu.menu_layer = MENU_LAYER_TOP;
        menu.dialog_text = enemy.dialog_text.clone();
        TurnStep::BackToMenu
    } else {
        TurnStep::Idle
    }
}

/// The player's hit lands: the enemy loses `damage` hit points (never going below 0) and
/// the action is recorded as a hit or, for no damage, a miss. Returns the hit points the
/// enemy had before, and the phase update the host runs next (the one after a hit), which
/// sees the new hit points and the recorded action.
pub fn apply_damage(enemy: &mut EnemyState, combat: &mut CombatState, damage: i32) -> (r: (i32, PhaseTrigger))
    requires
        i32::MIN <= old(enemy).hp - damage <= i32::MAX,
    ensures
        r.0 == old(enemy).hp,
        r.1 == PhaseTrigger::Damage,
        final(enemy).hp >= 0,
        damage >= 0 && old(enemy).hp >= 0 ==> final(enemy).hp <= old(enemy).hp,
        *final(enemy) == (EnemyState {
            hp: if old(enemy).hp - damage < 0 {
                0
            } else {
                (old(enemy).hp - damage) as i32
            },
            ..*old(enemy)
        }),
        final(combat).last_act_command is None,
        final(combat).last_player_action@ == if damage > 0 {
            "attackHit"@
        } else {
            "attackMiss"@
        },
        final(combat).mn_fight == old(combat).mn_fight,
        final(combat).my_fight == old(combat).my_fight,
        final(combat).phase_name == old(combat).phase_name,
        final(combat).phase_turn == old(combat).phase_turn,
        final(combat).turn_count == old(combat).turn_count,
{
    let old_hp = enemy.hp;
    let left = enemy.hp - damage;
    enemy.hp = if left < 0 {
        0
    } else {
        left
    };
    combat.last_act_command = None;
    combat.last_player_action = if damage > 0 {
        owned("attackHit")
    } else {
        owned("attackMiss")
    };
    (old_hp, PhaseTrigger::Damage)
}

/// The damage number has finished its flight. A defeated enemy (no hit points left)
/// vaporizes and the battle returns to the menu; otherwise the enemy speaks next and the
/// menu is reset to its top layer. Returns whether the enemy vaporizes.
pub fn finish_damage_display(enemy: &EnemyState, combat: &mut CombatState, menu: &mut MenuState) -> (vaporize: bool)
    ensures
        vaporize == (enemy.hp <= 0),
        *final(combat) == damage_shown(*old(combat), enemy.hp),
        vaporize ==> *final(menu) == *old(menu),
        !vaporize ==> *final(menu) == (MenuState { menu_layer: MENU_LAYER_TOP, ..*old(menu) }),
{
    if enemy.hp <= 0 {
        combat.mn_fight = MainFightState::Menu;
        true
    } else {
        combat.mn_fight = MainFightState::EnemyDialog;
        menu.menu_layer = MENU_LAYER_TOP;
        false
    }
}

/// The player dismisses the fully shown text of their action: the enemy speaks next.
/// Returns whether the text goes away (it does only in that case).
pub fn action_text_step(
    combat: &mut CombatState,
    menu: &mut MenuState,
    text_finished: bool,
    confirm: bool,
) -> (dismissed: bool)
    ensures
        dismissed == (text_finished && confirm && old(combat).my_fight
            == MessageFightState::PlayerActionText),
        dismissed ==> *final(combat) == text_dismissed(*old(combat)) && *final(menu) == (MenuState { menu_layer: MENU_LAYER_TOP, ..*old(menu) }),
        !dismissed ==> *final(combat) == *old(combat) && *final(menu) == *old(menu),
{
    if text_finished && confirm && combat.my_fight == MessageFightState::PlayerActionText {
        combat.my_fight = MessageFightState::NoMessage;
        combat.mn_fight = MainFightState::EnemyDialog;
        menu.menu_layer = MENU_LAYER_TOP;
        true
    } else {
        false
    }
}

/// A bullet brought the player's hit points to zero: the player is defeated.
pub fn defeat_player(combat: &mut CombatState)
    ensures
        *final(combat) == (CombatState { mn_fight: MainFightState::PlayerDefeated, ..*old(combat) }),
{
    combat.mn_fight = MainFightState::PlayerDefeated;
}

/// The frame of the slash after frame `frame`, and its sprite; none once the six frames
/// (0 to 5) are shown, and then the slash goes away.
pub fn next_slice_frame(frame: usize) -> (r: (usize, Option<String>))
    requires
        frame < usize::MAX,
    ensures
        r.0 == frame + 1,
        r.0 > 5 ==> r.1 is None,
        r.0 <= 5 ==> r.1 is Some && r.1->0@ == "texture/attack/spr_strike_"@ + int_decimal(
            r.0 as int,
        ) + ".png"@,
{
    let next = frame + 1;
    if next > 5 {
        (next, None)
    } else {
        let n = i64_to_decimal(next as i64);
        let mut t = concat("texture/attack/spr_strike_", n.as_str());
        t.append(".png");
        (next, Some(t))
    }
}

/// The sprite of the digit (or sign) `c` of a damage number.
pub open spec fn digit_texture(c: char) -> Seq<char> {
    "texture/dmgnum/spr_dmgnum_o_"@ + seq![c] + ".png"@
}

/// The sprites of a damage number, one per character of its decimal spelling.
pub fn damage_digit_textures(damage: i32) -> (v: Vec<String>)
    ensures
        strings_view(v@) == int_decimal(damage as int).map_values(|c: char| digit_texture(c)),
{
    let s = i64_to_decimal(damage as i64);
    let n = s.as_str().unicode_len();
    let mut v: Vec<String> = Vec::new();
    let mut i: usize = 0;
    while i < n
        invariant
            n == s@.len(),
            s@ == int_decimal(damage as int),
            i <= n,
            strings_view(v@) == s@.take(i as int).map_values(|c: char| digit_texture(c)),
        decreases n - i,
    {
        let ch = s.as_str().substring_char(i, i + 1);
        let mut t = concat("texture/dmgnum/spr_dmgnum_o_", ch);
        t.append(".png");
        let ghost before = v@;
        v.push(t);
        assert(ch@ =~= seq![s@[i as int]]);
        assert(strings_view(v@) =~= s@.take(i + 1).map_values(|c: char| digit_texture(c))) by {
            assert(strings_view(v@) =~= strings_view(before).push(t@));
            assert(s@.take(i + 1) =~= s@.take(i as int).push(s@[i as int]));
        }
        i = i + 1;
    }
    assert(s@.take(n as int) =~= s@);
    v
}

/// What the damage number shows after a hit: its sprites, and whether the enemy's health
/// bar is shown beside it.
pub struct DamageDisplay {
    pub sprites: Vec<String>,
    pub hp_bar: bool,
}

/// The damage number for `damage`: a damage above 0 shows one digit sprite per character of
/// its decimal spelling and the enemy's health bar; anything else shows the miss sprite
/// alone.
pub fn damage_display(damage: i32) -> (d: DamageDisplay)
    ensures
        damage > 0 ==> strings_view(d.sprites@) == int_decimal(damage as int).map_values(
            |c: char| digit_texture(c),
        ) && d.hp_bar,
        damage <= 0 ==> strings_view(d.sprites@) == seq!["texture/dmgnum/spr_dmgmiss_o.png"@]
            && !d.hp_bar,
{
    if damage > 0 {
        DamageDisplay { sprites: damage_digit_textures(damage), hp_bar: true }
    } else {
        let mut v: Vec<String> = Vec::new();
        v.push(owned("texture/dmgnum/spr_dmgmiss_o.png"));
        assert(strings_view(v@) =~= seq!["texture/dmgnum/spr_dmgmiss_o.png"@]);
        DamageDisplay { sprites: v, hp_bar: false }
    }
}

/// The sprite of heart shard `n` (0 to 3).
pub fn heart_shard_texture(n: u64) -> (t: String)
    ensures
        t@ == "texture/heart/spr_heartshards_"@ + int_decimal(n as int) + ".png"@,
{
    let d = u64_to_decimal(n);
    let mut t = concat("texture/heart/spr_heartshards_", d.as_str());
    t.append(".png");
    t
}

/// The sprite of a heart shard drawn at random among the four.
pub fn random_heart_shard_texture() -> (t: String)
    ensures
        exists|n: int| 0 <= n < 4 && t@ == "texture/heart/spr_heartshards_"@ + int_decimal(n)
            + ".png"@,
{
    let n = random_below(4);
    heart_shard_texture(n as u64)
}

/// The FIGHT bar was stopped (or ran past its end): the hit is resolved next.
pub fn attack_bar_stopped(combat: &mut CombatState)
    ensures
        *final(combat) == attack_resolving(*old(combat)),
{
    combat.mn_fight = MainFightState::PlayerAttackResolve;
}

/// A whole enemy turn: once the player's action text is dismissed, the enemy speaks (a new
/// turn is counted), its bubble is dismissed, it attacks, the attack ends, and the menu
/// waits for the player again, with one more turn counted and everything else as it was.
pub proof fn law_turn_returns_to_menu(c: CombatState)
    requires
        c.mn_fight == MainFightState::Menu,
        c.my_fight == MessageFightState::PlayerActionText,
        c.turn_count < i32::MAX,
        c.phase_turn < i32::MAX,
    ensures
        text_dismissed(c).mn_fight == MainFightState::EnemyDialog,
        turn_started(text_dismissed(c)).mn_fight == MainFightState::EnemyDialog,
        attack_begun(turn_started(text_dismissed(c))).mn_fight == MainFightState::EnemyAttack,
        attack_ended(attack_begun(turn_started(text_dismissed(c)))).mn_fight
            == MainFightState::TurnCleanup,
        back_to_menu(attack_ended(attack_begun(turn_started(text_dismissed(c))))) == (
        CombatState {
            my_fight: MessageFightState::NoMessage,
            turn_count: (c.turn_count + 1) as i32,
            phase_turn: (c.phase_turn + 1) as i32,
            ..c
        }),
{
}

/// After the player's hit, the battle goes on with the enemy's speech exactly when the
/// enemy still has hit points; the number of turns played does not change.
pub proof fn law_hit_then_enemy_speaks(c: CombatState, enemy_hp: i32)
    requires
        c.mn_fight == MainFightState::PlayerAttackBar,
    ensures
        damage_shown(attack_resolving(c), enemy_hp).mn_fight == if enemy_hp > 0 {
            MainFightState::EnemyDialog
        } else {
            MainFightState::Menu
        },
        damage_shown(attack_resolving(c), enemy_hp).turn_count == c.turn_count,
{
}

/// A turn's start with its phase update: the turn is counted; when the update moves to
/// another phase, that phase's turn count starts at 1 and its update runs too; otherwise
/// the phase's turn count goes up by one.
pub proof fn law_turn_start_phase(c: CombatState, next: Option<String>)
    requires
        c.turn_count < i32::MAX,
        c.phase_turn < i32::MAX,
    ensures
        ({
            let (after, rerun) = phase_after(turn_started(c), PhaseTrigger::Turn, next);
            let moved = next is Some && next->0@ != c.phase_name@;
            &&& after.turn_count == c.turn_count + 1
            &&& after.phase_turn == if moved {
                1
            } else {
                c.phase_turn + 1
            }
            &&& rerun == moved
            &&& after.mn_fight == c.mn_fight
        }),
{
}

/// After the player's hit, the phase update never runs twice, and a phase it moves to starts
/// at turn 0; the number of turns played does not change.
pub proof fn law_hit_phase(c: CombatState, next: Option<String>)
    ensures
        ({
            let (after, rerun) = phase_after(c, PhaseTrigger::Damage, next);
            &&& !rerun
            &&& after.turn_count == c.turn_count
            &&& (next is Some && next->0@ != c.phase_name@) ==> after.phase_turn == 0
        }),
{
}

} // verus!
