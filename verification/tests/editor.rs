use std::path::{Path, PathBuf};
use webtale::paths::normalize_path;
use webtale::editor::{
    begin_editor_frame, begin_rename, collapse_folder, expand_folder, finish_rename,
    grid_entries, grid_entry_clicked, sort_names, level_stats, press_preview_button, rename_target, set_current_project,
    split_file_name, tab_closeable, tab_drawn, tab_scroll_bars, tab_title, take_reset_request,
    tree_file_clicked, tree_folder_clicked, tree_folder_toggle, EditorState, EditorTab,
    GameRunState, PreviewButton, ProjectBrowserState, RECENT_PROJECT_LIMIT,
};

fn some(s: &str) -> Option<String> {
    Some(s.to_string())
}

#[test]
fn tab_titles_and_bars() {
    assert_eq!(tab_title(EditorTab::Battle), "Battle Screen");
    assert_eq!(tab_title(EditorTab::DanmakuPreview), "Danmaku Preview");
    assert_eq!(tab_title(EditorTab::Settings), "Danmaku Settings");
    assert_eq!(tab_title(EditorTab::LeftPane), "Left Pane");
    assert_eq!(tab_title(EditorTab::BottomPane), "Bottom Pane");
    assert_eq!(tab_scroll_bars(EditorTab::Settings), [true, true]);
    assert_eq!(tab_scroll_bars(EditorTab::Battle), [false, false]);
    assert!(tab_closeable(EditorTab::LeftPane));
}

#[test]
fn editor_frames_install_fonts_once() {
    let mut s = EditorState::default();
    assert!(begin_editor_frame(&mut s));
    tab_drawn(&mut s, EditorTab::DanmakuPreview);
    assert!(s.preview_active);
    assert_eq!(s.current_tab, EditorTab::DanmakuPreview);
    assert!(!begin_editor_frame(&mut s));
    assert!(!s.preview_active);
    tab_drawn(&mut s, EditorTab::Settings);
    assert_eq!(s.current_tab, EditorTab::DanmakuPreview);
    tab_drawn(&mut s, EditorTab::Battle);
    assert_eq!(s.current_tab, EditorTab::Battle);
    assert!(!s.preview_active);
}

#[test]
fn preview_buttons() {
    let mut run = GameRunState::default();
    press_preview_button(&mut run, PreviewButton::Play);
    assert!(run.running && !run.reset_requested);
    press_preview_button(&mut run, PreviewButton::Pause);
    assert!(!run.running);
    press_preview_button(&mut run, PreviewButton::Play);
    press_preview_button(&mut run, PreviewButton::Stop);
    assert!(!run.running && run.reset_requested);
    assert!(take_reset_request(&mut run));
    assert!(!take_reset_request(&mut run));
}

#[test]
fn level_stats_follow_the_level() {
    assert_eq!(level_stats(1), (20, 20));
    assert_eq!(level_stats(19), (92, 56));
    assert_eq!(level_stats(20), (99, 58));
}

#[test]
fn opening_projects_keeps_the_recent_list() {
    let mut s = ProjectBrowserState::default();
    set_current_project(&mut s, "a".to_string());
    set_current_project(&mut s, "b".to_string());
    set_current_project(&mut s, "a".to_string());
    assert_eq!(s.recent_projects, vec!["a".to_string(), "b".to_string()]);
    assert_eq!(s.current_project, some("a"));
    assert_eq!(s.selected_folder, some("a"));
    assert_eq!(s.selected_file, None);
    set_current_project(&mut s, "a".to_string());
    assert_eq!(s.recent_projects, vec!["a".to_string(), "b".to_string()]);
    assert_eq!(s.expanded_folders, vec!["a".to_string(), "b".to_string()]);
}

#[test]
fn recent_projects_are_capped() {
    let mut s = ProjectBrowserState::default();
    for i in 0..12 {
        set_current_project(&mut s, format!("p{}", i));
    }
    assert_eq!(s.recent_projects.len(), RECENT_PROJECT_LIMIT);
    assert_eq!(s.recent_projects[0], "p11");
    assert_eq!(s.recent_projects[9], "p2");
}

#[test]
fn folders_open_and_close() {
    let mut s = ProjectBrowserState::default();
    expand_folder(&mut s, "x");
    expand_folder(&mut s, "x");
    expand_folder(&mut s, "y");
    assert_eq!(s.expanded_folders, vec!["x".to_string(), "y".to_string()]);
    collapse_folder(&mut s, "x");
    assert_eq!(s.expanded_folders, vec!["y".to_string()]);
    assert!(!tree_folder_toggle(&mut s, "y", true));
    assert!(s.expanded_folders.is_empty());
    assert!(!tree_folder_toggle(&mut s, "y", false));
    assert!(tree_folder_toggle(&mut s, "y", true));
    assert!(tree_folder_toggle(&mut s, "y", false));
    assert_eq!(s.expanded_folders, vec!["y".to_string()]);
}

#[test]
fn clicks_select_folders_and_files() {
    let mut s = ProjectBrowserState::default();
    tree_file_clicked(&mut s, "p/phases", "p/phases/a.py");
    assert_eq!(s.selected_folder, some("p/phases"));
    assert_eq!(s.selected_file, some("p/phases/a.py"));
    tree_folder_clicked(&mut s, "p/texture");
    assert_eq!(s.selected_folder, some("p/texture"));
    assert_eq!(s.selected_file, None);
    grid_entry_clicked(&mut s, "p/texture/a.png", false);
    assert_eq!(s.selected_file, some("p/texture/a.png"));
    assert_eq!(s.selected_folder, some("p/texture"));
    grid_entry_clicked(&mut s, "p/sub", true);
    assert_eq!(s.selected_folder, some("p/sub"));
    assert_eq!(s.selected_file, None);
    assert_eq!(s.expanded_folders, vec!["p/sub".to_string()]);
}

#[test]
fn file_names_split_like_paths() {
    assert_eq!(split_file_name("a.tar.gz"), ("a.tar".to_string(), some("gz")));
    assert_eq!(split_file_name("phase.py"), ("phase".to_string(), some("py")));
    assert_eq!(split_file_name(".bashrc"), (".bashrc".to_string(), None));
    assert_eq!(split_file_name("foo."), ("foo".to_string(), some("")));
    assert_eq!(split_file_name(".."), ("..".to_string(), None));
    assert_eq!(split_file_name("README"), ("README".to_string(), None));
}

#[test]
fn rename_target_trims_unicode_white_space() {
    assert_eq!(rename_target("\u{3000}new name\u{a0}\n", ".wep"), some("new name.wep"));
    assert_eq!(rename_target("\u{2028}\u{85}", ".py"), None);
    assert_eq!(rename_target("x", ""), some("x"));
}

#[test]
fn renaming_a_file() {
    let mut s = ProjectBrowserState::default();
    begin_rename(&mut s, "p/phases/a.py", "a.py");
    assert_eq!(s.renaming_file, some("p/phases/a.py"));
    assert_eq!(s.rename_buffer, "a");
    assert_eq!(s.rename_extension, ".py");
    assert!(s.rename_focus_requested);
    assert_eq!(rename_target("  b  ", ".py"), some("b.py"));
    assert_eq!(rename_target(" \t", ".py"), None);
    finish_rename(&mut s, some("p/phases/b.py"));
    assert_eq!(s.renaming_file, None);
    assert_eq!(s.selected_file, some("p/phases/b.py"));
    begin_rename(&mut s, "p/README", "README");
    assert_eq!(s.rename_extension, "");
    finish_rename(&mut s, None);
    assert_eq!(s.selected_file, some("p/README"));
}

fn strings(v: &[&str]) -> Vec<String> {
    v.iter().map(|s| s.to_string()).collect()
}

#[test]
fn names_sort_like_strings() {
    let mut expected = strings(&["b", "a", "B", "a", "é", "ab", ""]);
    let sorted = sort_names(&expected);
    expected.sort();
    assert_eq!(sorted, expected);
    assert!(sort_names(&vec![]).is_empty());
}

#[test]
fn grid_lists_folders_then_files() {
    let r = grid_entries(&strings(&["z", "m"]), &strings(&["b.py", "a.py"]));
    assert_eq!(
        r,
        vec![
            (true, "m".to_string()),
            (true, "z".to_string()),
            (false, "a.py".to_string()),
            (false, "b.py".to_string()),
        ]
    );
}

#[test]
fn opening_a_project_keeps_the_rename_box() {
    let mut s = ProjectBrowserState::default();
    s.rename_buffer = "draft".to_string();
    s.rename_extension = ".py".to_string();
    s.rename_focus_requested = true;
    set_current_project(&mut s, "p".to_string());
    assert_eq!(s.rename_buffer, "draft");
    assert_eq!(s.rename_extension, ".py");
    assert!(s.rename_focus_requested);
    assert_eq!(s.renaming_file, None);
}

#[test]
fn paths_are_kept_by_their_components() {
    for s in [
        "", "/", "//", ".", "./", "./a", "a", "a/", "a//b", "/p//a/./b/", "a/./", "/./a", "a/..", "../a", ".x",
        "x/.a", "./.", "././a", ".//a/", "/..", "a/b/c", "é/ü",
    ] {
        let expected: PathBuf = Path::new(s).components().collect();
        assert_eq!(normalize_path(s), expected.to_str().unwrap(), "for {:?}", s);
    }
}

#[test]
fn two_spellings_of_a_project_are_one_project() {
    let mut s = ProjectBrowserState::default();
    set_current_project(&mut s, "/p/a/".to_string());
    set_current_project(&mut s, "/p/b".to_string());
    set_current_project(&mut s, "/p//a".to_string());
    assert_eq!(s.recent_projects, vec!["/p/a".to_string(), "/p/b".to_string()]);
    assert_eq!(s.current_project, some("/p//a"));
    assert_eq!(s.expanded_folders, vec!["/p/a".to_string(), "/p/b".to_string()]);
    collapse_folder(&mut s, "/p/a/");
    assert_eq!(s.expanded_folders, vec!["/p/b".to_string()]);
    assert!(tree_folder_toggle(&mut s, "/p/b/.", false));
}
