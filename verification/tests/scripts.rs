use webtale::scripts::{get_item_script, get_phase_script, list_phase_names, project_root, ScriptStore};
use webtale::phase::{resolve_bubble_texture_name, resolve_initial_phase};

fn store(files: &[(&str, &str)]) -> ScriptStore {
    let mut s = ScriptStore::new();
    for (p, c) in files {
        s.add(p.to_string(), c.to_string());
    }
    s
}

#[test]
fn project_root_is_under_projects() {
    assert_eq!(project_root("default"), "projects/default");
}

#[test]
fn item_script_is_read_from_properties() {
    let s = store(&[("projects/default/properties/item.py", "ITEMS = 1")]);
    assert_eq!(get_item_script(&s, "default"), Some("ITEMS = 1".to_string()));
    assert_eq!(get_item_script(&s, "other"), None);
}

#[test]
fn empty_phase_name_has_no_script() {
    let s = store(&[("projects/default/phases/.wep", "x")]);
    assert_eq!(get_phase_script(&s, "default", ""), None);
}

#[test]
fn phase_names_skip_api_and_other_files() {
    let s = store(&[
        ("projects/default/phases/phase_api.wep", ""),
        ("projects/default/phases/b.wep", ""),
        ("projects/default/phases/a.wep", ""),
        ("projects/default/phases/notes.txt", ""),
        ("projects/default/phases/old.py", ""),
        ("projects/default/phases/sub/c.wep", ""),
        ("projects/other/phases/z.wep", ""),
    ]);
    assert_eq!(list_phase_names(&s, "default"), vec!["b".to_string(), "a".to_string()]);
}

#[test]
fn initial_phase_falls_back_to_first_sorted() {
    let s = store(&[
        ("projects/default/phases/b.wep", ""),
        ("projects/default/phases/a.wep", ""),
    ]);
    assert_eq!(resolve_initial_phase(&s, "default", "missing", None), "a");
    assert_eq!(resolve_initial_phase(&s, "default", "b", Some("a".to_string())), "b");
    assert_eq!(resolve_initial_phase(&s, "default", "", Some("b".to_string())), "b");
    assert_eq!(resolve_initial_phase(&store(&[]), "default", "", None), "");
}

#[test]
fn bubble_names_resolve_to_textures() {
    assert_eq!(resolve_bubble_texture_name("blconsm"), "texture/blcon/spr_blconsm.png");
    assert_eq!(resolve_bubble_texture_name("custom/bubble.png"), "custom/bubble.png");
}

#[test]
fn phase_names_are_listed_once() {
    let s = store(&[
        ("projects/default/phases/a.wep", "1"),
        ("projects/default/phases/b.wep", ""),
        ("projects/default/phases/a.wep", "2"),
    ]);
    assert_eq!(list_phase_names(&s, "default"), vec!["a".to_string(), "b".to_string()]);
}
