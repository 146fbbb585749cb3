//! Running a project's Python scripts, and reading what they answer into the library's
//! plain values.
use rustpython_vm::builtins::{PyDict, PyDictRef};
use rustpython_vm::import::import_file;
use rustpython_vm::{Interpreter, PyObjectRef};
use vstd::prelude::*;
use crate::answer::ScriptValue;
use crate::combat::{choose_attack_pattern, danmaku_sources, DanmakuLoad};
use crate::names::NameMap;
use crate::phase::{
    answer_applied, context_entries, fallback_phase, ContextValue, apply_phase_state, after_phase_update, phase_after,
    phase_context, phase_exists, phase_update_from, phase_update_scripts, requested_phase,
    resolve_initial_phase, update_read, PhaseContext, PhaseTrigger, PhaseUpdate,
};
use crate::scripts::{
    get_enemy_status_script, get_phase_api_script, get_properties_script, get_tachie_script,
    script_path, ScriptStore,
};
use crate::setup::{
    apply_enemy_status, apply_inventory, apply_player_status, define_item, define_items_from,
    enemy_status_from, inventory_from, player_status_from, player_status_taken, status_applied,
    status_read, EnemyStatus,
};
use crate::state::{CombatState, EnemyState, ItemDictionary, ItemInfo, MenuState, PlayerState};
use crate::text::{concat, owned};

verus! {

/// The embedded Python interpreter (`rustpython_vm::Interpreter`), opaque here.
#[verifier::external_type_specification]
#[verifier::external_body]
pub struct ExInterpreter(Interpreter);

/// A Python value (`rustpython_vm::PyObjectRef`), opaque here.
#[verifier::external_type_specification]
#[verifier::external_body]
pub struct ExPyObjectRef(PyObjectRef);

/// The interpreter that runs a project's scripts.
pub struct PythonRuntime {
    pub interpreter: Interpreter,
}

/// `rustpython_vm::import::import_file`: compiles `source` (named `file_name` in error
/// reports) and runs it as the module `name`, which it also enters in `sys.modules`. None
/// when compiling or running it raised; what the module holds is not stated, since a
/// script may draw random numbers.
#[verifier::external_body]
fn import_module(rt: &PythonRuntime, name: &str, file_name: &str, source: &str) -> (m: Option<PyObjectRef>) {
    rt.interpreter.enter(|vm| import_file(vm, name, file_name.to_string(), source).ok())
}


/// `PyObject::get_attr`: the attribute `name` of `obj`; None when looking it up raised.
#[verifier::external_body]
fn get_attr(rt: &PythonRuntime, obj: &PyObjectRef, name: &'static str) -> (r: Option<PyObjectRef>) {
    rt.interpreter.enter(|vm| obj.get_attr(name, vm).ok())
}

/// `VirtualMachine::invoke`: calls `func` with the positional arguments `args`; None when
/// the call raised. What it returns is not stated, since a script may draw random numbers.
#[verifier::external_body]
fn call(rt: &PythonRuntime, func: &PyObjectRef, args: Vec<PyObjectRef>) -> (r: Option<PyObjectRef>) {
    rt.interpreter.enter(|vm| vm.invoke(func, args).ok())
}

/// `try_into_value::<PyDictRef>`: `obj` when it is a dictionary, else None.
#[verifier::external_body]
fn as_dict(rt: &PythonRuntime, obj: &PyObjectRef) -> (r: Option<PyObjectRef>) {
    rt.interpreter.enter(|vm| obj.clone().try_into_value::<PyDictRef>(vm).ok().map(|d| d.into()))
}

/// `PyDict::get_item_opt`: the value under `key` in the dictionary `dict`; None when it is
/// absent, the lookup raised, or `dict` is no dictionary.
#[verifier::external_body]
fn dict_get(rt: &PythonRuntime, dict: &PyObjectRef, key: &str) -> (r: Option<PyObjectRef>) {
    rt.interpreter.enter(|vm| match dict.downcast_ref::<PyDict>() {
        Some(d) => d.get_item_opt(key, vm).ok().flatten(),
        None => None,
    })
}

/// The entries of the dictionary `dict` in its order (iterating a `PyDict`); none when
/// `dict` is no dictionary.
#[verifier::external_body]
fn dict_items(dict: &PyObjectRef) -> (r: Vec<(PyObjectRef, PyObjectRef)>) {
    match dict.downcast_ref::<PyDict>() {
        Some(d) => d.into_iter().collect(),
        None => Vec::new(),
    }
}

/// `PyObject::dict`: the values of the namespace of `module` (its globals), in order.
#[verifier::external_body]
fn module_values(module: &PyObjectRef) -> (r: Vec<PyObjectRef>) {
    match module.dict() {
        Some(d) => d.into_iter().map(|(_, v)| v).collect(),
        None => Vec::new(),
    }
}

/// `try_into_value::<String>`: `obj` as a string, when it is one.
#[verifier::external_body]
fn to_string(rt: &PythonRuntime, obj: &PyObjectRef) -> (r: Option<String>) {
    rt.interpreter.enter(|vm| obj.clone().try_into_value::<String>(vm).ok())
}

/// `try_into_value::<i32>`: `obj` as an `i32`, when it is an integer in range.
#[verifier::external_body]
fn to_i32(rt: &PythonRuntime, obj: &PyObjectRef) -> (r: Option<i32>) {
    rt.interpreter.enter(|vm| obj.clone().try_into_value::<i32>(vm).ok())
}

/// `try_into_value::<bool>`: `obj` as a boolean, when it is one.
#[verifier::external_body]
fn to_bool(rt: &PythonRuntime, obj: &PyObjectRef) -> (r: Option<bool>) {
    rt.interpreter.enter(|vm| obj.clone().try_into_value::<bool>(vm).ok())
}

/// `try_into_value::<Vec<String>>`: `obj` as a list of strings, when it is one.
#[verifier::external_body]
fn to_strings(rt: &PythonRuntime, obj: &PyObjectRef) -> (r: Option<Vec<String>>) {
    rt.interpreter.enter(|vm| obj.clone().try_into_value::<Vec<String>>(vm).ok())
}

/// `Context::new_dict`: a new empty dictionary.
#[verifier::external_body]
fn new_dict(rt: &PythonRuntime) -> (r: PyObjectRef) {
    rt.interpreter.enter(|vm| vm.ctx.new_dict().into())
}

/// `PyDict::set_item`: stores `value` under `key` in the dictionary `dict`.
#[verifier::external_body]
fn dict_set(rt: &PythonRuntime, dict: &PyObjectRef, key: &str, value: PyObjectRef) {
    rt.interpreter.enter(|vm| {
        if let Some(d) = dict.downcast_ref::<PyDict>() {
            let _ = d.set_item(key, value, vm);
        }
    })
}

/// `VirtualMachine::new_pyobj` on an `i32`: the Python integer.
#[verifier::external_body]
fn py_int(rt: &PythonRuntime, v: i32) -> (r: PyObjectRef) {
    rt.interpreter.enter(|vm| vm.new_pyobj(v))
}

/// `VirtualMachine::new_pyobj` on a string: the Python string.
#[verifier::external_body]
fn py_str(rt: &PythonRuntime, v: &str) -> (r: PyObjectRef) {
    rt.interpreter.enter(|vm| vm.new_pyobj(v.to_string()))
}

/// `VirtualMachine::new_pyobj` on a boolean: the Python boolean.
#[verifier::external_body]
fn py_bool(rt: &PythonRuntime, v: bool) -> (r: PyObjectRef) {
    rt.interpreter.enter(|vm| vm.new_pyobj(v))
}

/// `Context::none`: Python's `None`.
#[verifier::external_body]
fn py_none(rt: &PythonRuntime) -> (r: PyObjectRef) {
    rt.interpreter.enter(|vm| vm.ctx.none())
}

/// `PyObjectRef::clone`: another reference to the same Python value.
#[verifier::external_body]
fn share(obj: &PyObjectRef) -> (r: PyObjectRef) {
    obj.clone()
}

/// The string under `key` in the dictionary `dict`, when present and a string.
fn read_string(rt: &PythonRuntime, dict: &PyObjectRef, key: &str) -> Option<String> {
    match dict_get(rt, dict, key) {
        Some(v) => to_string(rt, &v),
        None => None,
    }
}

/// The integer under `key` in the dictionary `dict`, when present and an `i32`.
#[allow(dead_code)]
fn read_i32(rt: &PythonRuntime, dict: &PyObjectRef, key: &str) -> Option<i32> {
    match dict_get(rt, dict, key) {
        Some(v) => to_i32(rt, &v),
        None => None,
    }
}

/// The list of strings under `key` in the dictionary `dict`, when present and one.
#[allow(dead_code)]
fn read_strings(rt: &PythonRuntime, dict: &PyObjectRef, key: &str) -> Option<Vec<String>> {
    match dict_get(rt, dict, key) {
        Some(v) => to_strings(rt, &v),
        None => None,
    }
}

/// The dictionary under `key` in the dictionary `dict`, when present and one.
#[allow(dead_code)]
fn read_dict(rt: &PythonRuntime, dict: &PyObjectRef, key: &str) -> Option<PyObjectRef> {
    match dict_get(rt, dict, key) {
        Some(v) => as_dict(rt, &v),
        None => None,
    }
}

/// The value `obj` by the readings the library makes of it (`ScriptValue`); a dictionary's
/// entries are read down to `depth` levels of nesting, and only those with string keys.
fn script_value(rt: &PythonRuntime, obj: &PyObjectRef, depth: u32) -> ScriptValue
    decreases depth,
{
    let entries = if depth > 0 {
        match as_dict(rt, obj) {
            Some(d) => {
                let items = dict_items(&d);
                let mut out: Vec<(String, ScriptValue)> = Vec::new();
                let n = items.len();
                let mut i: usize = 0;
                while i < n
                    invariant
                        n == items@.len(),
                        i <= n,
                        depth > 0,
                    decreases n - i,
                {
                    if let Some(k) = to_string(rt, &items[i].0) {
                        let v = script_value(rt, &items[i].1, depth - 1);
                        out.push((k, v));
                    }
                    i = i + 1;
                }
                Some(out)
            },
            None => None,
        }
    } else {
        None
    };
    ScriptValue { int: to_i32(rt, obj), text: to_string(rt, obj), texts: to_strings(rt, obj), entries }
}

/// The entries of the dictionary `dict` (`script_value` to `depth` levels); none when it
/// is no dictionary.
fn script_entries(rt: &PythonRuntime, dict: &PyObjectRef, depth: u32) -> Vec<(String, ScriptValue)>
    requires
        depth < 8,
{
    match script_value(rt, dict, depth + 1).entries {
        Some(e) => e,
        None => Vec::new(),
    }
}

/// Calls the module-level function `name` of `module` with no arguments and takes its
/// result as a dictionary.
fn call_for_dict(rt: &PythonRuntime, module: &PyObjectRef, name: &'static str) -> Option<PyObjectRef> {
    let func = match get_attr(rt, module, name) {
        Some(f) => f,
        None => return None,
    };
    let result = match call(rt, &func, Vec::new()) {
        Some(r) => r,
        None => return None,
    };
    as_dict(rt, &result)
}

/// The phase the phase API's `getInitialPhase` names; none when the script fails or names
/// an empty phase.
pub fn api_initial_phase(rt: &PythonRuntime, api_script: &str) -> (r: Option<String>)
    ensures
        r is Some ==> r->0@.len() > 0,
{
    let module = match import_module(rt, "phase_api", "phase_api.wep", api_script) {
        Some(m) => m,
        None => return None,
    };
    let func = match get_attr(rt, &module, "getInitialPhase") {
        Some(f) => f,
        None => return None,
    };
    let result = match call(rt, &func, Vec::new()) {
        Some(r) => r,
        None => return None,
    };
    match to_string(rt, &result) {
        Some(name) => {
            if name.as_str().unicode_len() == 0 {
                None
            } else {
                Some(name)
            }
        },
        None => None,
    }
}

/// The phase a battle starts in: the requested one when the project has its script; else
/// the phase API is asked (`getInitialPhase`) and its answer taken when that phase has a
/// script; else the first phase name in sorted order, or none.
pub fn choose_initial_phase(rt: &PythonRuntime, store: &ScriptStore, project: &str, requested: &str) -> (r: String)
    ensures
        phase_exists(*store, project@, requested@) ==> r@ == requested@,
        r@.len() == 0 || phase_exists(*store, project@, r@),
        !phase_exists(*store, project@, requested@) ==> fallback_phase(*store, project@, r@)
            || store.text_at(script_path(project@, "phases"@, "phase_api.wep"@)) is Some
            && phase_exists(*store, project@, r@),
{
    if requested_phase(store, project, requested).is_some() {
        return resolve_initial_phase(store, project, requested, None);
    }
    let api = match get_phase_api_script(store, project) {
        Some(script) => api_initial_phase(rt, script.as_str()),
        None => None,
    };
    resolve_initial_phase(store, project, requested, api)
}


/// The string, or `None`, as a Python value.
fn py_opt_str(rt: &PythonRuntime, v: &Option<String>) -> PyObjectRef {
    match v {
        Some(t) => py_str(rt, t.as_str()),
        None => py_none(rt),
    }
}

/// The dictionary a phase script's `reset` and `update` are given: `turn`, `phaseTurn`,
/// `enemyHp`, `enemyMaxHp`, `enemyName`, `phase`, `trigger`, `isFirstTurn`,
/// `isPhaseStart`, `isStart`, `isTurnStart`, `isDamageApplied`, `lastPlayerAction` and
/// `lastActCommand`, taken from `c`.
fn context_object(rt: &PythonRuntime, c: &PhaseContext) -> PyObjectRef {
    let d = new_dict(rt);
    let entries = context_entries(c);
    let n = entries.len();
    let mut i: usize = 0;
    while i < n
        invariant
            n == entries@.len(),
            i <= n,
        decreases n - i,
    {
        let value = match &entries[i].1 {
            ContextValue::Int(v) => py_int(rt, *v),
            ContextValue::Text(t) => py_str(rt, t.as_str()),
            ContextValue::Flag(b) => py_bool(rt, *b),
            ContextValue::OptText(t) => py_opt_str(rt, t),
        };
        dict_set(rt, &d, entries[i].0.as_str(), value);
        i = i + 1;
    }
    d
}

/// A phase script's answer read from its dictionary: `dialogText`, `attackPatterns`,
/// `bubbleMessages`, `bubbleMessage`, `bubbleTexture` and `nextPhase`.
fn read_phase_answer(rt: &PythonRuntime, dict: &PyObjectRef) -> (u: PhaseUpdate)
    ensures
        exists|d: Seq<(String, ScriptValue)>| #[trigger] update_read(u, d),
{
    let d = script_entries(rt, dict, 0);
    phase_update_from(&d)
}

/// Runs a phase update: the phase API (as module `phase_api`) is loaded and its `reset`
/// called with the context, then the phase script (as module `phase_name`) is loaded and its
/// `update` called with the same context. The answer is the dictionary `update` returns,
/// or else the state the API's setters collected (`getState`). Returns the answer read and
/// its dictionary (where the host finds the bubble's position); none when a script fails.
pub fn run_phase_scripts(
    rt: &PythonRuntime,
    api_script: &str,
    phase_name: &str,
    phase_script: &str,
    context: &PhaseContext,
) -> (r: Option<(PhaseUpdate, PyObjectRef)>)
    ensures
        r is Some ==> exists|d: Seq<(String, ScriptValue)>| #[trigger] update_read((r->0).0, d),
{
    let api = match import_module(rt, "phase_api", "phase_api.wep", api_script) {
        Some(m) => m,
        None => return None,
    };
    let ctx = context_object(rt, context);
    if let Some(reset) = get_attr(rt, &api, "reset") {
        let mut args: Vec<PyObjectRef> = Vec::new();
        args.push(share(&ctx));
        let _ = call(rt, &reset, args);
    }
    let file_name = concat(phase_name, ".wep");
    let module = match import_module(rt, phase_name, file_name.as_str(), phase_script) {
        Some(m) => m,
        None => return None,
    };
    let update = match get_attr(rt, &module, "update") {
        Some(f) => f,
        None => return None,
    };
    let mut args: Vec<PyObjectRef> = Vec::new();
    args.push(ctx);
    let result = match call(rt, &update, args) {
        Some(r) => r,
        None => return None,
    };
    let dict = match as_dict(rt, &result) {
        Some(d) => d,
        None => match call_for_dict(rt, &api, "getState") {
            Some(d) => d,
            None => return None,
        },
    };
    let answer = read_phase_answer(rt, &dict);
    let ghost d = choose|d: Seq<(String, ScriptValue)>| update_read(answer, d);
    let r = Some((answer, dict));
    assert(update_read((r->0).0, d));
    r
}

/// A phase update for `trigger`: when the project has the current phase's script and the
/// phase API, they run with the battle's context and their answer is applied to the enemy
/// and the menu. Returns the phase the answer asks to move to, and the answer's dictionary;
/// none of either, with nothing changed, when there is nothing to run or a script fails.
pub fn apply_phase_update(
    rt: &PythonRuntime,
    store: &ScriptStore,
    project: &str,
    enemy: &mut EnemyState,
    combat: &CombatState,
    menu: &mut MenuState,
    trigger: PhaseTrigger,
) -> (r: (Option<String>, Option<PyObjectRef>))
    ensures
        !(phase_exists(*store, project@, combat.phase_name@) && store.text_at(
            script_path(project@, "phases"@, "phase_api.wep"@),
        ) is Some) ==> r.1 is None,
        r.1 is None ==> r.0 is None && *final(enemy) == *old(enemy) && *final(menu) == *old(menu),
        r.1 is Some ==> exists|u: PhaseUpdate, d: Seq<(String, ScriptValue)>|
            #![trigger answer_applied(*old(enemy), *final(enemy), *old(menu), *final(menu), *combat, u), update_read(u, d)]
            answer_applied(*old(enemy), *final(enemy), *old(menu), *final(menu), *combat, u)
                && update_read(u, d) && r.0 == u.next_phase,
{
    let (phase_script, api_script) = match phase_update_scripts(store, project, combat) {
        Some(scripts) => scripts,
        None => return (None, None),
    };
    let context = phase_context(enemy, combat, trigger);
    match run_phase_scripts(rt, api_script.as_str(), combat.phase_name.as_str(), phase_script.as_str(), &context) {
        Some((update, dict)) => {
            let ghost u = update;
            let ghost d = choose|d: Seq<(String, ScriptValue)>| update_read(u, d);
            assert(update_read(u, d));
            let next = apply_phase_state(enemy, combat, menu, update);
            assert(answer_applied(*old(enemy), *enemy, *old(menu), *menu, *combat, u));
            (next, Some(dict))
        },
        None => (None, None),
    }
}

/// A phase update for `trigger` with what follows it: the battle takes in the phase the
/// answer asks for (`after_phase_update`) and, where that says so, the update runs once
/// more in the new phase. Nothing runs without a current phase. Returns the answers'
/// dictionaries in order.
pub fn run_phase_update(
    rt: &PythonRuntime,
    store: &ScriptStore,
    project: &str,
    enemy: &mut EnemyState,
    combat: &mut CombatState,
    menu: &mut MenuState,
    trigger: PhaseTrigger,
) -> (answers: Vec<PyObjectRef>)
    ensures
        old(combat).phase_name@.len() == 0 ==> *final(combat) == *old(combat) && *final(enemy)
            == *old(enemy) && *final(menu) == *old(menu) && answers@.len() == 0,
        exists|next: Option<String>| #[trigger] phase_after(*old(combat), trigger, next).0 == *final(combat),
{
    let mut answers: Vec<PyObjectRef> = Vec::new();
    if combat.phase_name.as_str().unicode_len() == 0 {
        assert(phase_after(*old(combat), trigger, None).0 == *combat);
        return answers;
    }
    let (next, dict) = apply_phase_update(rt, store, project, enemy, combat, menu, trigger);
    if let Some(d) = dict {
        answers.push(d);
    }
    let ghost n = next;
    let rerun = after_phase_update(combat, trigger, next);
    assert(phase_after(*old(combat), trigger, n).0 == *combat);
    if rerun {
        let (_, again) = apply_phase_update(rt, store, project, enemy, combat, menu, trigger);
        if let Some(d) = again {
            answers.push(d);
        }
    }
    answers
}


/// The enemy status a script's `getEnemyStatus` answers, read from its dictionary:
/// `enemyHp`, `enemyMaxHp`, `enemyAtk`, `enemyDef`, `enemyName`, `dialogText`, `phaseScript`,
/// `attackPatterns`, `actCommands`, `actTexts` (its entries whose key and value are strings,
/// in order), `bubbleMessages`, `bodyTexture`, `headTexture` and `tachieScript`.
fn read_enemy_status(rt: &PythonRuntime, dict: &PyObjectRef) -> (st: EnemyStatus)
    ensures
        exists|d: Seq<(String, ScriptValue)>| #[trigger] status_read(st, d),
{
    let d = script_entries(rt, dict, 1);
    enemy_status_from(&d)
}

/// Runs the project's enemy status script (`properties/enemyStatus.wep`) and takes in what
/// its `getEnemyStatus` answers. Returns the phase script the answer names (empty when
/// none) and the answer's dictionary (where the host finds the enemy's placement); when the
/// script is missing, empty or fails, the enemy is unchanged and neither is returned.
pub fn load_enemy_status(rt: &PythonRuntime, store: &ScriptStore, project: &str, enemy: &mut EnemyState) -> (r: (
    String,
    Option<PyObjectRef>,
))
    ensures
        store.text_at(script_path(project@, "properties"@, "enemyStatus.wep"@)) is None
            ==> r.1 is None,
        r.1 is None ==> *final(enemy) == *old(enemy) && r.0@.len() == 0,
        r.1 is Some ==> exists|st: EnemyStatus, d: Seq<(String, ScriptValue)>|
            #![trigger status_applied(*old(enemy), *final(enemy), st), status_read(st, d)]
            status_applied(*old(enemy), *final(enemy), st) && status_read(st, d)
            && r.0@ == match st.phase_script {
                Some(p) => p@,
                None => Seq::<char>::empty(),
            },
{
    let script = match get_enemy_status_script(store, project) {
        Some(s) => s,
        None => return (String::new(), None),
    };
    if script.as_str().unicode_len() == 0 {
        return (String::new(), None);
    }
    let module = match import_module(rt, "enemyStatus", "enemyStatus.wep", script.as_str()) {
        Some(m) => m,
        None => return (String::new(), None),
    };
    let dict = match call_for_dict(rt, &module, "getEnemyStatus") {
        Some(d) => d,
        None => return (String::new(), None),
    };
    let status = read_enemy_status(rt, &dict);
    let ghost st = status;
    let phase = match apply_enemy_status(enemy, status) {
        Some(p) => p,
        None => String::new(),
    };
    assert(status_applied(*old(enemy), *enemy, st));
    (phase, Some(dict))
}

/// Runs the portrait script `tachie/<name>.py` and returns what its `getTachieData`
/// answers (the head's sway, for the host); none for an empty name, a missing script or a
/// failure.
pub fn load_tachie(rt: &PythonRuntime, store: &ScriptStore, project: &str, name: &str) -> (r: Option<PyObjectRef>)
    ensures
        name@.len() == 0 ==> r is None,
{
    let script = match get_tachie_script(store, project, name) {
        Some(s) => s,
        None => return None,
    };
    if script.as_str().unicode_len() == 0 {
        return None;
    }
    let file_name = concat("tachie/", name);
    let module = match import_module(rt, "tachie", file_name.as_str(), script.as_str()) {
        Some(m) => m,
        None => return None,
    };
    call_for_dict(rt, &module, "getTachieData")
}

/// The properties class of a properties module: the first global marked
/// `__is_properties__ = True`, else the global `GameData`.
fn properties_class(rt: &PythonRuntime, module: &PyObjectRef) -> Option<PyObjectRef> {
    let values = module_values(module);
    let n = values.len();
    let mut i: usize = 0;
    while i < n
        invariant
            n == values@.len(),
            i <= n,
        decreases n - i,
    {
        if let Some(flag) = get_attr(rt, &values[i], "__is_properties__") {
            if let Some(true) = to_bool(rt, &flag) {
                return Some(share(&values[i]));
            }
        }
        i = i + 1;
    }
    get_attr(rt, module, "GameData")
}

/// Defines the items of the properties' `items` dictionary: for each entry whose key is a
/// string and whose value a dictionary, `heal`, `attack`, `defense` (0 when absent) and
/// `text` (empty when absent).
fn define_items(rt: &PythonRuntime, items_dict: &PyObjectRef, items: &mut ItemDictionary) {
    let entries = script_entries(rt, items_dict, 1);
    define_items_from(items, &entries);
}

/// Runs the project's properties script (`properties/properties.py`) and takes in its
/// properties class: the items it defines, the inventory (`items`, and the `weapon` and
/// `armor` of `equipment`), and the player's `name` and level (`lv`, else `currentLevel`)
/// from `status`. Returns the `status` dictionary (where the host finds the player's hit
/// points and other numbers); when the script is missing, empty or fails, nothing changes.
pub fn load_properties(
    rt: &PythonRuntime,
    store: &ScriptStore,
    project: &str,
    player: &mut PlayerState,
    items: &mut ItemDictionary,
) -> (r: Option<PyObjectRef>)
    ensures
        store.text_at(script_path(project@, "properties"@, "properties.py"@)) is None
            ==> r is None && *final(player) == *old(player) && *final(items) == *old(items),
        r is Some ==> exists|s: Seq<(String, ScriptValue)>| #[trigger] player_status_taken(
            *old(player),
            *final(player),
            s,
        ),
{
    let script = match get_properties_script(store, project) {
        Some(s) => s,
        None => return None,
    };
    if script.as_str().unicode_len() == 0 {
        return None;
    }
    let module = match import_module(rt, "properties", "properties.py", script.as_str()) {
        Some(m) => m,
        None => return None,
    };
    let class = match properties_class(rt, &module) {
        Some(c) => c,
        None => return None,
    };
    if let Some(items_obj) = get_attr(rt, &class, "items") {
        if let Some(items_dict) = as_dict(rt, &items_obj) {
            define_items(rt, &items_dict, items);
        }
    }
    if let Some(inv_obj) = get_attr(rt, &class, "inventory") {
        if let Some(inv) = as_dict(rt, &inv_obj) {
            let entries = script_entries(rt, &inv, 1);
            let (carried, weapon, armor) = inventory_from(&entries);
            apply_inventory(player, carried, weapon, armor);
        }
    }
    let status_obj = match get_attr(rt, &class, "status") {
        Some(s) => s,
        None => return None,
    };
    let status = match as_dict(rt, &status_obj) {
        Some(d) => d,
        None => return None,
    };
    let entries = script_entries(rt, &status, 0);
    let (name, lv, current_level) = player_status_from(&entries);
    let ghost before = *player;
    apply_player_status(player, name, lv, current_level);
    assert(player_status_taken(before, *player, entries@));
    assert(player_status_taken(*old(player), *player, entries@));
    Some(status)
}

/// A bullet pattern's start: the pattern drawn, the bullet its `spawn` made, the damage
/// the bullet deals and the sprite it shows while waiting.
pub struct BulletStart {
    pub pattern: String,
    pub bullet: PyObjectRef,
    pub damage: i32,
    pub texture_wait: String,
}

/// The module of `name`: loaded from `source` (and kept in `loaded`) when given, else the
/// one kept.
fn pattern_module(
    rt: &PythonRuntime,
    loaded: &mut NameMap<PyObjectRef>,
    name: &str,
    file_name: &str,
    source: Option<String>,
) -> (r: Option<PyObjectRef>)
    ensures
        forall|k: Seq<char>| old(loaded).get_spec(k) is Some ==> (#[trigger] final(loaded).get_spec(k)) is Some,
{
    match source {
        Some(src) => {
            let module = match import_module(rt, name, file_name, src.as_str()) {
                Some(m) => m,
                None => return None,
            };
            loaded.insert(owned(name), share(&module));
            Some(module)
        },
        None => match loaded.get(name) {
            Some(m) => Some(share(m)),
            None => None,
        },
    }
}

/// Starts the enemy's attack: draws its pattern (`choose_attack_pattern`), loads the
/// pattern's module and the bullet API (`api`) unless `loaded` keeps them
/// (`danmaku_sources`), runs the pattern's `init` (which must name `box` and `textureWait`)
/// and `spawn`, and reads the bullet's `damage` (0 when unreadable). None when a script is
/// missing or fails. Nothing kept in `loaded` is dropped.
pub fn start_pattern(
    rt: &PythonRuntime,
    store: &ScriptStore,
    project: &str,
    enemy: &EnemyState,
    loaded: &mut NameMap<PyObjectRef>,
) -> (r: Option<BulletStart>)
    ensures
        forall|k: Seq<char>| old(loaded).get_spec(k) is Some ==> (#[trigger] final(loaded).get_spec(k)) is Some,
        r is Some && enemy.attacks@.len() == 0 ==> r->0.pattern@ == "frogJump"@,
        r is Some && enemy.attacks@.len() > 0 ==> crate::scripts::strings_view(enemy.attacks@).contains(
            r->0.pattern@,
        ),
{
    let name = choose_attack_pattern(enemy);
    let api_loaded = loaded.get("api").is_some();
    let script_loaded = loaded.get(name.as_str()).is_some();
    let (api_source, script_source) = match danmaku_sources(store, project, name.as_str(), api_loaded, script_loaded) {
        DanmakuLoad::Ready { api_source, script_source } => (api_source, script_source),
        DanmakuLoad::MissingScript => return None,
        DanmakuLoad::MissingApi => return None,
    };
    let _api = match pattern_module(rt, loaded, "api", "api.py", api_source) {
        Some(m) => m,
        None => return None,
    };
    let file_name = concat(name.as_str(), ".py");
    let module = match pattern_module(rt, loaded, name.as_str(), file_name.as_str(), script_source) {
        Some(m) => m,
        None => return None,
    };
    let init = match call_for_dict(rt, &module, "init") {
        Some(d) => d,
        None => return None,
    };
    if dict_get(rt, &init, "box").is_none() {
        return None;
    }
    let texture_wait = match read_string(rt, &init, "textureWait") {
        Some(t) => t,
        None => return None,
    };
    let spawn = match get_attr(rt, &module, "spawn") {
        Some(f) => f,
        None => return None,
    };
    let bullet = match call(rt, &spawn, Vec::new()) {
        Some(b) => b,
        None => return None,
    };
    let damage = match get_attr(rt, &bullet, "damage") {
        Some(v) => match to_i32(rt, &v) {
            Some(d) => d,
            None => 0,
        },
        None => 0,
    };
    Some(BulletStart { pattern: name, bullet, damage, texture_wait })
}


/// The turn flow `c` in the phase `name`.
pub open spec fn in_phase(c: CombatState, name: String) -> CombatState {
    CombatState { phase_name: name, ..c }
}

/// The battle's start: the starting phase is chosen (`choose_initial_phase`) and its update
/// runs for the `start` trigger (`run_phase_update`). Returns the phase chosen and the
/// answers' dictionaries.
pub fn start_battle_phase(
    rt: &PythonRuntime,
    store: &ScriptStore,
    project: &str,
    requested: &str,
    enemy: &mut EnemyState,
    combat: &mut CombatState,
    menu: &mut MenuState,
) -> (r: (String, Vec<PyObjectRef>))
    ensures
        phase_exists(*store, project@, requested@) ==> r.0@ == requested@,
        r.0@.len() == 0 || phase_exists(*store, project@, r.0@),
        !phase_exists(*store, project@, requested@) ==> fallback_phase(*store, project@, r.0@)
            || store.text_at(script_path(project@, "phases"@, "phase_api.wep"@)) is Some
            && phase_exists(*store, project@, r.0@),
        exists|next: Option<String>| #[trigger] phase_after(
            in_phase(*old(combat), r.0),
            PhaseTrigger::Start,
            next,
        ).0 == *final(combat),
{
    let first = choose_initial_phase(rt, store, project, requested);
    combat.phase_name = first.clone();
    let ghost started = *combat;
    let answers = run_phase_update(rt, store, project, enemy, combat, menu, PhaseTrigger::Start);
    assert(started == in_phase(*old(combat), first));
    (first, answers)
}

} // verus!
