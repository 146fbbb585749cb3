//! Where a project's Python scripts live, and reading them from a loaded store.
use vstd::prelude::*;
use crate::text::{
    concat, ends_with, has_char, has_prefix, has_suffix, owned, seq_lt, starts_with, str_eq,
    str_lt, lemma_seq_lt_transitive, lemma_seq_lt_irreflexive,
};

verus! {

/// One script file: its path below the data root and its text.
pub struct ScriptFile {
    pub path: String,
    pub contents: String,
}

/// The script files of the projects, as read from disk. Paths are written with `/`
/// between components, relative to the directory that holds `projects`.
pub struct ScriptStore {
    pub files: Vec<ScriptFile>,
}

/// The text stored under `key`: that of the first file with this path.
pub open spec fn lookup(files: Seq<ScriptFile>, key: Seq<char>) -> Option<Seq<char>>
    decreases files.len(),
{
    if files.len() == 0 {
        None
    } else if files[0].path@ == key {
        Some(files[0].contents@)
    } else {
        lookup(files.drop_first(), key)
    }
}

/// The view of an optional string.
pub open spec fn opt_view(o: Option<String>) -> Option<Seq<char>> {
    match o {
        Some(s) => Some(s@),
        None => None,
    }
}

/// The views of a list of strings.
pub open spec fn strings_view(v: Seq<String>) -> Seq<Seq<char>> {
    v.map_values(|s: String| s@)
}

/// No text occurs twice.
pub open spec fn no_dups(v: Seq<Seq<char>>) -> bool {
    forall|i: int, j: int| 0 <= i < j < v.len() ==> v[i] != v[j]
}

/// The directory of a project: `projects/<project>`.
pub open spec fn project_dir(project: Seq<char>) -> Seq<char> {
    "projects/"@ + project
}

/// The path of a file `<folder>/<file>` inside a project.
pub open spec fn script_path(project: Seq<char>, folder: Seq<char>, file: Seq<char>) -> Seq<char> {
    project_dir(project) + "/"@ + folder + "/"@ + file
}

/// The path of a script named by the user: `<folder>/<name><ext>` inside a project.
pub open spec fn named_script_path(project: Seq<char>, folder: Seq<char>, name: Seq<char>, ext: Seq<char>) -> Seq<char> {
    script_path(project, folder, name + ext)
}

/// The path of the phase script `name`: `phases/<name>.wep` inside a project.
pub open spec fn phase_script_path(project: Seq<char>, name: Seq<char>) -> Seq<char> {
    named_script_path(project, "phases"@, name, ".wep"@)
}

/// The name of the phase that a file of a project's `phases` folder defines: the stem of a
/// file directly in that folder whose extension is `wep`, unless it is the phase API itself.
pub open spec fn phase_name_of(path: Seq<char>, project: Seq<char>) -> Option<Seq<char>> {
    let dir = project_dir(project) + "/phases/"@;
    if has_prefix(path, dir) && has_suffix(path, ".wep"@) && path.len() > dir.len() + 4 {
        let stem = path.subrange(dir.len() as int, path.len() - 4);
        if stem.contains('/') || stem == "phase_api"@ {
            None
        } else {
            Some(stem)
        }
    } else {
        None
    }
}

/// The phase names that the files define, in the order of the files.
pub open spec fn phase_names(files: Seq<ScriptFile>, project: Seq<char>) -> Seq<Seq<char>>
    decreases files.len(),
{
    if files.len() == 0 {
        seq![]
    } else {
        let prev = phase_names(files.drop_last(), project);
        match phase_name_of(files.last().path@, project) {
            Some(name) => prev.push(name),
            None => prev,
        }
    }
}

/// Whether `m` is an element of `names` that no element sorts before.
pub open spec fn is_least(m: Seq<char>, names: Seq<Seq<char>>) -> bool {
    &&& names.contains(m)
    &&& forall|i: int| 0 <= i < names.len() ==> !seq_lt(#[trigger] names[i], m)
}

impl ScriptStore {
    /// The text stored under `key`.
    pub open spec fn text_at(&self, key: Seq<char>) -> Option<Seq<char>> {
        lookup(self.files@, key)
    }

    /// A store with no files.
    pub fn new() -> (s: ScriptStore)
        ensures
            s.files@.len() == 0,
    {
        ScriptStore { files: Vec::new() }
    }

    /// Adds a file after those already held.
    pub fn add(&mut self, path: String, contents: String)
        ensures
            final(self).files@ == old(self).files@.push(ScriptFile { path, contents }),
    {
        self.files.push(ScriptFile { path, contents });
    }
}

proof fn lemma_lookup_step(files: Seq<ScriptFile>, i: int, key: Seq<char>)
    requires
        0 <= i < files.len(),
        files[i].path@ != key,
    ensures
        lookup(files.subrange(i, files.len() as int), key) == lookup(
            files.subrange(i + 1, files.len() as int),
            key,
        ),
{
    assert(files.subrange(i, files.len() as int).drop_first() =~= files.subrange(
        i + 1,
        files.len() as int,
    ));
}

/// The text of the script at `path`, if the store holds one.
pub fn read_script(store: &ScriptStore, path: &str) -> (r: Option<String>)
    ensures
        opt_view(r) == store.text_at(path@),
{
    let n = store.files.len();
    let mut i: usize = 0;
    assert(store.files@.subrange(0, n as int) =~= store.files@);
    while i < n
        invariant
            n == store.files@.len(),
            i <= n,
            store.text_at(path@) == lookup(store.files@.subrange(i as int, n as int), path@),
        decreases n - i,
    {
        let f = &store.files[i];
        if str_eq(f.path.as_str(), path) {
            let c = f.contents.clone();
            return Some(c);
        }
        proof {
            lemma_lookup_step(store.files@, i as int, path@);
        }
        i = i + 1;
    }
    None
}

/// The directory of a project, `projects/<project>`.
pub fn project_root(project: &str) -> (r: String)
    ensures
        r@ == project_dir(project@),
{
    concat("projects/", project)
}

/// The path `projects/<project>/<folder>/<file>`.
fn project_file(project: &str, folder: &str, file: &str) -> (r: String)
    ensures
        r@ == script_path(project@, folder@, file@),
{
    let mut p = project_root(project);
    p.append("/");
    p.append(folder);
    p.append("/");
    p.append(file);
    p
}

/// The path of the script `<folder>/<name><ext>` of a project.
fn named_file(project: &str, folder: &str, name: &str, ext: &str) -> (r: String)
    ensures
        r@ == named_script_path(project@, folder@, name@, ext@),
{
    let file = concat(name, ext);
    project_file(project, folder, file.as_str())
}

/// The item script, `properties/item.py`.
pub fn get_item_script(store: &ScriptStore, project: &str) -> (r: Option<String>)
    ensures
        opt_view(r) == store.text_at(script_path(project@, "properties"@, "item.py"@)),
{
    let p = project_file(project, "properties", "item.py");
    read_script(store, p.as_str())
}

/// The player status script, `properties/playerStatus.py`.
pub fn get_player_status_script(store: &ScriptStore, project: &str) -> (r: Option<String>)
    ensures
        opt_view(r) == store.text_at(script_path(project@, "properties"@, "playerStatus.py"@)),
{
    let p = project_file(project, "properties", "playerStatus.py");
    read_script(store, p.as_str())
}

/// The game properties script, `properties/properties.py`.
pub fn get_properties_script(store: &ScriptStore, project: &str) -> (r: Option<String>)
    ensures
        opt_view(r) == store.text_at(script_path(project@, "properties"@, "properties.py"@)),
{
    let p = project_file(project, "properties", "properties.py");
    read_script(store, p.as_str())
}

/// The enemy status script, `properties/enemyStatus.wep`.
pub fn get_enemy_status_script(store: &ScriptStore, project: &str) -> (r: Option<String>)
    ensures
        opt_view(r) == store.text_at(script_path(project@, "properties"@, "enemyStatus.wep"@)),
{
    let p = project_file(project, "properties", "enemyStatus.wep");
    read_script(store, p.as_str())
}

/// The portrait script `tachie/<name>.py`; none for an empty name.
pub fn get_tachie_script(store: &ScriptStore, project: &str, script_name: &str) -> (r: Option<String>)
    ensures
        script_name@.len() == 0 ==> r is None,
        script_name@.len() > 0 ==> opt_view(r) == store.text_at(
            named_script_path(project@, "tachie"@, script_name@, ".py"@),
        ),
{
    if script_name.unicode_len() == 0 {
        return None;
    }
    let p = named_file(project, "tachie", script_name, ".py");
    read_script(store, p.as_str())
}

/// The phase API script, `phases/phase_api.wep`.
pub fn get_phase_api_script(store: &ScriptStore, project: &str) -> (r: Option<String>)
    ensures
        opt_view(r) == store.text_at(script_path(project@, "phases"@, "phase_api.wep"@)),
{
    let p = project_file(project, "phases", "phase_api.wep");
    read_script(store, p.as_str())
}

/// The phase script `phases/<name>.wep`; none for an empty name.
pub fn get_phase_script(store: &ScriptStore, project: &str, phase_name: &str) -> (r: Option<String>)
    ensures
        phase_name@.len() == 0 ==> r is None,
        phase_name@.len() > 0 ==> opt_view(r) == store.text_at(
            phase_script_path(project@, phase_name@),
        ),
{
    if phase_name.unicode_len() == 0 {
        return None;
    }
    let p = named_file(project, "phases", phase_name, ".wep");
    read_script(store, p.as_str())
}

/// The bullet pattern API script, `danmaku/api.py`.
pub fn get_danmaku_api_script(store: &ScriptStore, project: &str) -> (r: Option<String>)
    ensures
        opt_view(r) == store.text_at(script_path(project@, "danmaku"@, "api.py"@)),
{
    let p = project_file(project, "danmaku", "api.py");
    read_script(store, p.as_str())
}

/// The bullet pattern script `danmaku/<name>.py`; none for an empty name.
pub fn get_danmaku_script(store: &ScriptStore, project: &str, script_name: &str) -> (r: Option<String>)
    ensures
        script_name@.len() == 0 ==> r is None,
        script_name@.len() > 0 ==> opt_view(r) == store.text_at(
            named_script_path(project@, "danmaku"@, script_name@, ".py"@),
        ),
{
    if script_name.unicode_len() == 0 {
        return None;
    }
    let p = named_file(project, "danmaku", script_name, ".py");
    read_script(store, p.as_str())
}

/// Whether `path` is among `v`.
pub(crate) fn contains_name(v: &Vec<String>, path: &str) -> (r: bool)
    ensures
        r == strings_view(v@).contains(path@),
{
    let n = v.len();
    let mut i: usize = 0;
    while i < n
        invariant
            n == v@.len(),
            i <= n,
            forall|j: int| 0 <= j < i ==> v@[j]@ != path@,
        decreases n - i,
    {
        if str_eq(v[i].as_str(), path) {
            assert(strings_view(v@)[i as int] == path@);
            return true;
        }
        i = i + 1;
    }
    assert(!strings_view(v@).contains(path@)) by {
        if strings_view(v@).contains(path@) {
            let k = choose|k: int| 0 <= k < n && strings_view(v@)[k] == path@;
            assert(v@[k]@ == path@);
        }
    }
    false
}

/// The phase name that the file at `path` defines, if any.
fn phase_name_of_path(path: &str, project: &str) -> (r: Option<String>)
    ensures
        opt_view(r) == phase_name_of(path@, project@),
{
    let dir = concat(project_root(project).as_str(), "/phases/");
    proof {
        reveal_strlit("/phases/");
    }
    if !starts_with(path, dir.as_str()) || !ends_with(path, ".wep") {
        return None;
    }
    let n = path.unicode_len();
    let d = dir.unicode_len();
    proof {
        reveal_strlit(".wep");
    }
    if n - 4 <= d {
        return None;
    }
    let stem = path.substring_char(d, n - 4);
    if has_char(stem, '/') || str_eq(stem, "phase_api") {
        None
    } else {
        Some(owned(stem))
    }
}

/// The names of the phases of a project: the stems of the `.wep` files directly in its
/// `phases` folder, without `phase_api`, each once (in the order the store first has them).
pub fn list_phase_names(store: &ScriptStore, project: &str) -> (r: Vec<String>)
    ensures
        no_dups(strings_view(r@)),
        forall|x: Seq<char>| #[trigger] strings_view(r@).contains(x) <==> phase_names(
            store.files@,
            project@,
        ).contains(x),
{
    let n = store.files.len();
    let mut names: Vec<String> = Vec::new();
    let mut i: usize = 0;
    while i < n
        invariant
            n == store.files@.len(),
            i <= n,
            no_dups(strings_view(names@)),
            forall|x: Seq<char>| #[trigger] strings_view(names@).contains(x) <==> phase_names(
                store.files@.take(i as int),
                project@,
            ).contains(x),
        decreases n - i,
    {
        let ghost prefix = store.files@.take(i + 1);
        let ghost before = strings_view(names@);
        let ghost pv = phase_names(store.files@.take(i as int), project@);
        assert(prefix.drop_last() =~= store.files@.take(i as int));
        assert(prefix.last() == store.files@[i as int]);
        assert forall|x: Seq<char>| #[trigger] before.contains(x) <==> pv.contains(x) by {
            assert(strings_view(names@).contains(x) <==> pv.contains(x));
        }
        match phase_name_of_path(store.files[i].path.as_str(), project) {
            Some(name) => {
                assert(phase_names(prefix, project@) == pv.push(name@));
                if !contains_name(&names, name.as_str()) {
                    let ghost nv = name@;
                    names.push(name);
                    assert(strings_view(names@) =~= before.push(nv));
                    assert forall|x: Seq<char>| #[trigger] strings_view(names@).contains(x) <==> pv.push(nv).contains(x) by {
                        if strings_view(names@).contains(x) {
                            let k = choose|k: int| 0 <= k < strings_view(names@).len() && strings_view(names@)[k] == x;
                            if k < before.len() {
                                assert(before[k] == x);
                                assert(before.contains(x));
                                let m = choose|m: int| 0 <= m < pv.len() && pv[m] == x;
                                assert(pv.push(nv)[m] == x);
                            } else {
                                assert(pv.push(nv)[pv.len() as int] == x);
                            }
                        }
                        if pv.push(nv).contains(x) {
                            let m = choose|m: int| 0 <= m < pv.len() + 1 && pv.push(nv)[m] == x;
                            if m < pv.len() {
                                assert(pv[m] == x);
                                assert(pv.contains(x));
                                assert(before.contains(x));
                                let k = choose|k: int| 0 <= k < before.len() && before[k] == x;
                                assert(before.push(nv)[k] == x);
                            } else {
                                assert(strings_view(names@)[before.len() as int] == x);
                            }
                        }
                    }
                } else {
                    assert forall|x: Seq<char>| #[trigger] before.contains(x) <==> pv.push(name@).contains(x) by {
                        if pv.push(name@).contains(x) {
                            let m = choose|m: int| 0 <= m < pv.len() + 1 && pv.push(name@)[m] == x;
                            if m < pv.len() {
                                assert(pv[m] == x);
                                assert(pv.contains(x));
                            }
                        }
                        if before.contains(x) {
                            let m = choose|m: int| 0 <= m < pv.len() && pv[m] == x;
                            assert(pv.push(name@)[m] == x);
                        }
                    }
                }
            },
            None => {
                assert(phase_names(prefix, project@) == pv);
            },
        }
        i = i + 1;
    }
    assert(store.files@.take(n as int) =~= store.files@);
    names
}

/// The store holds a text for every path that one of its files has.
pub proof fn lemma_lookup_finds(files: Seq<ScriptFile>, i: int)
    requires
        0 <= i < files.len(),
    ensures
        lookup(files, files[i].path@) is Some,
    decreases files.len(),
{
    if i > 0 && files[0].path@ != files[i].path@ {
        assert(files.drop_first()[i - 1] == files[i]);
        lemma_lookup_finds(files.drop_first(), i - 1);
    }
}

/// Every phase the listing names comes from a file of the store at that phase's path, and
/// its name is not empty.
pub proof fn lemma_listed_phase_file(files: Seq<ScriptFile>, project: Seq<char>, k: int)
    requires
        0 <= k < phase_names(files, project).len(),
    ensures
        phase_names(files, project)[k].len() > 0,
        exists|i: int| 0 <= i < files.len() && #[trigger] files[i].path@ == phase_script_path(
            project,
            phase_names(files, project)[k],
        ),
    decreases files.len(),
{
    let prev = phase_names(files.drop_last(), project);
    let name = phase_names(files, project)[k];
    if k < prev.len() {
        assert(name == prev[k]);
        lemma_listed_phase_file(files.drop_last(), project, k);
        let i = choose|i: int| 0 <= i < files.drop_last().len() && #[trigger] files.drop_last()[i].path@
            == phase_script_path(project, prev[k]);
        assert(files[i] == files.drop_last()[i]);
    } else {
        let path = files.last().path@;
        let dir = project_dir(project) + "/phases/"@;
        assert(phase_name_of(path, project) == Some(name));
        reveal_strlit("/phases/");
        reveal_strlit("/");
        reveal_strlit("phases");
        reveal_strlit(".wep");
        assert(path =~= dir + name + ".wep"@) by {
            assert(path.take(dir.len() as int) == dir);
            assert(path.skip(path.len() - 4) == ".wep"@);
            assert forall|j: int| 0 <= j < path.len() implies path[j] == (dir + name + ".wep"@)[j] by {
                if j < dir.len() {
                    assert(path.take(dir.len() as int)[j] == path[j]);
                } else if j >= path.len() - 4 {
                    assert(path.skip(path.len() - 4)[j - (path.len() - 4)] == path[j]);
                }
            }
        }
        assert(phase_script_path(project, name) =~= dir + name + ".wep"@);
        assert(files[files.len() - 1].path@ == path);
    }
}

} // verus!
