use rustpython_vm::Interpreter;
use webtale::names::NameMap;
use webtale::phase::PhaseTrigger;
use webtale::python::{
    api_initial_phase, choose_initial_phase, load_enemy_status, load_properties, load_tachie,
    run_phase_update, start_battle_phase, start_pattern, PythonRuntime,
};
use webtale::scripts::ScriptStore;
use webtale::setup::{
    default_combat_state, default_enemy_state, default_menu_state, default_player_state,
    new_item_dictionary,
};

fn runtime() -> PythonRuntime {
    PythonRuntime { interpreter: Interpreter::without_stdlib(Default::default()) }
}

fn store(files: &[(&str, &str)]) -> ScriptStore {
    let mut s = ScriptStore::new();
    for (p, c) in files {
        s.add(p.to_string(), c.to_string());
    }
    s
}

const API: &str = "
state = {}
def reset(context):
    global state
    state = {'seen': context['trigger']}
def setDialogText(text):
    state['dialogText'] = text
def getState():
    return state
def getInitialPhase():
    return 'rage'
";

#[test]
fn phase_api_names_the_first_phase() {
    let rt = runtime();
    assert_eq!(api_initial_phase(&rt, API), Some("rage".to_string()));
    assert_eq!(api_initial_phase(&rt, "def getInitialPhase():\n    return ''\n"), None);
    assert_eq!(api_initial_phase(&rt, "def getInitialPhase(:"), None);
    let s = store(&[
        ("projects/default/phases/phase_api.wep", API),
        ("projects/default/phases/intro.wep", ""),
        ("projects/default/phases/rage.wep", ""),
    ]);
    assert_eq!(choose_initial_phase(&rt, &s, "default", "intro"), "intro");
    assert_eq!(choose_initial_phase(&rt, &s, "default", "missing"), "rage");
    let t = store(&[("projects/default/phases/b.wep", ""), ("projects/default/phases/a.wep", "")]);
    assert_eq!(choose_initial_phase(&rt, &t, "default", ""), "a");
}

#[test]
fn phase_updates_run_the_scripts() {
    let rt = runtime();
    let s = store(&[
        ("projects/default/phases/phase_api.wep", API),
        (
            "projects/default/phases/intro.wep",
            "def update(context):\n    return {'dialogText': '* ' + context['trigger'] + ' ' + str(context['turn']), 'nextPhase': 'rage', 'bubbleTexture': 'blconwd'}\n",
        ),
        (
            "projects/default/phases/rage.wep",
            "import phase_api\ndef update(context):\n    phase_api.setDialogText('* Angry.')\n",
        ),
    ]);
    let mut e = default_enemy_state();
    let mut c = default_combat_state();
    let mut m = default_menu_state();
    c.phase_name = "intro".to_string();
    c.turn_count = 3;
    c.phase_turn = 5;
    let answers = run_phase_update(&rt, &s, "default", &mut e, &mut c, &mut m, PhaseTrigger::Turn);
    assert_eq!(answers.len(), 2);
    assert_eq!(c.phase_name, "rage");
    assert_eq!(c.phase_turn, 1);
    assert_eq!(e.dialog_text, "* Angry.");
    assert_eq!(m.dialog_text, "* Angry.");
    assert_eq!(e.bubble_texture, "texture/blcon/spr_blconwd.png");

    let mut c2 = default_combat_state();
    c2.phase_name = "intro".to_string();
    let answers = run_phase_update(&rt, &s, "default", &mut e, &mut c2, &mut m, PhaseTrigger::Damage);
    assert_eq!(answers.len(), 1);
    assert_eq!(c2.phase_name, "rage");
    assert_eq!(c2.phase_turn, 0);
    assert_eq!(e.dialog_text, "* damage 0");

    let mut c3 = default_combat_state();
    assert!(run_phase_update(&rt, &s, "default", &mut e, &mut c3, &mut m, PhaseTrigger::Start).is_empty());
}

#[test]
fn enemy_status_comes_from_its_script() {
    let rt = runtime();
    let script = "
def getEnemyStatus():
    return {
        'enemyHp': 30, 'enemyMaxHp': 30, 'enemyAtk': 4, 'enemyDef': 'x',
        'enemyName': 'Froggit', 'phaseScript': 'intro',
        'actCommands': ['Check', 'Talk'], 'actTexts': {'Talk': '* Ribbit.', 3: 'no'},
        'tachieScript': 'froggit',
    }
";
    let s = store(&[
        ("projects/default/properties/enemyStatus.wep", script),
        ("projects/default/tachie/froggit.py", "def getTachieData():\n    return {'headSwaySpeed': 3.0}\n"),
    ]);
    let mut e = default_enemy_state();
    e.def = 9;
    let (phase, dict) = load_enemy_status(&rt, &s, "default", &mut e);
    assert!(dict.is_some());
    assert_eq!(phase, "intro");
    assert_eq!(e.hp, 30);
    assert_eq!(e.def, 9);
    assert_eq!(e.name, "Froggit");
    assert_eq!(e.act_commands, vec!["Check".to_string(), "Talk".to_string()]);
    assert_eq!(e.act_texts.get("Talk"), Some(&"* Ribbit.".to_string()));
    assert!(load_tachie(&rt, &s, "default", &e.tachie_script).is_some());
    assert!(load_tachie(&rt, &s, "default", "").is_none());

    let mut e2 = default_enemy_state();
    let (phase, dict) = load_enemy_status(&rt, &store(&[]), "default", &mut e2);
    assert!(dict.is_none());
    assert_eq!(phase, "");
    assert_eq!(e2.hp, 0);
}

#[test]
fn properties_come_from_the_marked_class() {
    let rt = runtime();
    let script = "
class Other:
    pass
class Props:
    __is_properties__ = True
    items = {'Pie': {'heal': 99, 'text': 'Yum.'}, 'Rock': {}}
    inventory = {'items': ['Pie', 'Rock'], 'equipment': {'weapon': 'Stick', 'armor': ''}}
    status = {'name': 'CHARA', 'currentLevel': 3, 'maxHp': 20.0}
";
    let s = store(&[("projects/default/properties/properties.py", script)]);
    let mut p = default_player_state();
    let mut items = new_item_dictionary();
    assert!(load_properties(&rt, &s, "default", &mut p, &mut items).is_some());
    assert_eq!(p.name, "CHARA");
    assert_eq!(p.lv, 3);
    assert_eq!(p.inventory, vec!["Pie".to_string(), "Rock".to_string()]);
    assert_eq!(p.equipped_items, vec!["Stick".to_string()]);
    assert_eq!(items.0.get("Pie").unwrap().heal_amount, 99);
    assert_eq!(items.0.get("Pie").unwrap().text, "Yum.");
    assert_eq!(items.0.get("Rock").unwrap().heal_amount, 0);

    let mut p2 = default_player_state();
    assert!(load_properties(&rt, &store(&[]), "default", &mut p2, &mut items).is_none());
    assert_eq!(p2.lv, 1);
}

#[test]
fn bullet_patterns_load_once_and_spawn() {
    let rt = runtime();
    let pattern = "
class Bullet:
    damage = 3
def init():
    return {'box': [0, 0, 1, 1], 'textureWait': 'texture/frog.png'}
def spawn():
    return Bullet()
";
    let s = store(&[
        ("projects/default/danmaku/api.py", "x = 1\n"),
        ("projects/default/danmaku/frogJump.py", pattern),
    ]);
    let e = default_enemy_state();
    let mut loaded = NameMap::new();
    let start = start_pattern(&rt, &s, "default", &e, &mut loaded).expect("the pattern starts");
    assert_eq!(start.pattern, "frogJump");
    assert_eq!(start.damage, 3);
    assert_eq!(start.texture_wait, "texture/frog.png");
    assert!(loaded.get("api").is_some() && loaded.get("frogJump").is_some());
    let again = start_pattern(&rt, &store(&[]), "default", &e, &mut loaded).expect("kept modules run");
    assert_eq!(again.damage, 3);
    assert!(start_pattern(&rt, &store(&[]), "default", &e, &mut NameMap::new()).is_none());
}

#[test]
fn battle_start_runs_the_first_phase() {
    let rt = runtime();
    let s = store(&[
        ("projects/default/phases/phase_api.wep", API),
        ("projects/default/phases/intro.wep", "def update(context):\n    return {'dialogText': context['trigger'], 'nextPhase': 'rage'}\n"),
        ("projects/default/phases/rage.wep", "def update(context):\n    return {'bubbleMessage': 'Grr.'}\n"),
    ]);
    let mut e = default_enemy_state();
    let mut c = default_combat_state();
    let mut m = default_menu_state();
    let (first, answers) = start_battle_phase(&rt, &s, "default", "intro", &mut e, &mut c, &mut m);
    assert_eq!(first, "intro");
    assert_eq!(answers.len(), 2);
    assert_eq!(c.phase_name, "rage");
    assert_eq!(c.phase_turn, 0);
    assert_eq!(e.dialog_text, "start");
    assert_eq!(e.bubble_message_override, Some("Grr.".to_string()));
}
