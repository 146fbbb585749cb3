//! The editor's own state: its tabs, the preview's play controls, the project browser.
use vstd::prelude::*;
use crate::paths::{normalize_path, path_key};
use crate::scripts::{contains_name, no_dups, opt_view, strings_view};
use crate::text::{
    concat, lemma_seq_lt_irreflexive, lemma_seq_lt_transitive, owned, seq_lt, str_eq, str_lt,
};

verus! {

/// The editor's tabs.
#[derive(Clone, Copy, Debug, PartialEq, Eq, Structural)]
pub enum EditorTab {
    Battle,
    DanmakuPreview,
    Settings,
    LeftPane,
    BottomPane,
}

impl Default for EditorTab {
    fn default() -> (r: Self)
        ensures
            r == EditorTab::Battle,
    {
        EditorTab::Battle
    }
}

/// A tab's title.
pub fn tab_title(tab: EditorTab) -> (t: String)
    ensures
        t@ == match tab {
            EditorTab::Battle => "Battle Screen"@,
            EditorTab::DanmakuPreview => "Danmaku Preview"@,
            EditorTab::Settings => "Danmaku Settings"@,
            EditorTab::LeftPane => "Left Pane"@,
            EditorTab::BottomPane => "Bottom Pane"@,
        },
{
    match tab {
        EditorTab::Battle => owned("Battle Screen"),
        EditorTab::DanmakuPreview => owned("Danmaku Preview"),
        EditorTab::Settings => owned("Danmaku Settings"),
        EditorTab::LeftPane => owned("Left Pane"),
        EditorTab::BottomPane => owned("Bottom Pane"),
    }
}

/// Whether a tab scrolls horizontally and vertically: only the settings do.
pub fn tab_scroll_bars(tab: EditorTab) -> (r: [bool; 2])
    ensures
        r@ == if tab == EditorTab::Settings {
            seq![true, true]
        } else {
            seq![false, false]
        },
{
    match tab {
        EditorTab::Settings => [true, true],
        _ => [false, false],
    }
}

/// Every tab can be closed.
pub fn tab_closeable(tab: EditorTab) -> (r: bool)
    ensures
        r,
{
    true
}

/// The editor's flags.
pub struct EditorState {
    pub current_tab: EditorTab,
    pub font_configured: bool,
    pub preview_active: bool,
    pub controls_pinned: bool,
}

impl Default for EditorState {
    fn default() -> (s: Self)
        ensures
            s.current_tab == EditorTab::Battle,
            !s.font_configured,
            !s.preview_active,
            !s.controls_pinned,
    {
        EditorState {
            current_tab: EditorTab::Battle,
            font_configured: false,
            preview_active: false,
            controls_pinned: false,
        }
    }
}

/// The start of an editor frame: the bullet preview counts as inactive until its tab is
/// drawn. Returns whether the editor's fonts still have to be installed (only the first
/// time).
pub fn begin_editor_frame(state: &mut EditorState) -> (install_fonts: bool)
    ensures
        install_fonts == !old(state).font_configured,
        *final(state) == (EditorState {
            font_configured: true,
            preview_active: false,
            ..*old(state)
        }),
{
    let install = !state.font_configured;
    state.font_configured = true;
    state.preview_active = false;
    install
}

/// A tab is drawn: the battle and preview tabs become the current tab, and drawing the
/// preview tab makes the preview active.
pub fn tab_drawn(state: &mut EditorState, tab: EditorTab)
    ensures
        tab == EditorTab::Battle ==> *final(state) == (EditorState {
            current_tab: EditorTab::Battle,
            ..*old(state)
        }),
        tab == EditorTab::DanmakuPreview ==> *final(state) == (EditorState {
            current_tab: EditorTab::DanmakuPreview,
            preview_active: true,
            ..*old(state)
        }),
        tab != EditorTab::Battle && tab != EditorTab::DanmakuPreview ==> *final(state) == *old(state),
{
    match tab {
        EditorTab::Battle => {
            state.current_tab = EditorTab::Battle;
        },
        EditorTab::DanmakuPreview => {
            state.current_tab = EditorTab::DanmakuPreview;
            state.preview_active = true;
        },
        _ => {},
    }
}

/// Whether the game runs, and whether a restart was asked for.
pub struct GameRunState {
    pub running: bool,
    pub reset_requested: bool,
}

impl Default for GameRunState {
    fn default() -> (s: Self)
        ensures
            !s.running,
            !s.reset_requested,
    {
        GameRunState { running: false, reset_requested: false }
    }
}

/// The preview's control buttons.
#[derive(Clone, Copy, Debug, PartialEq, Eq, Structural)]
pub enum PreviewButton {
    Play,
    Pause,
    Stop,
}

/// A preview control was pressed: play runs the game, pause halts it, stop halts it and
/// asks for a restart.
pub fn press_preview_button(run: &mut GameRunState, button: PreviewButton)
    ensures
        button == PreviewButton::Play ==> final(run).running && final(run).reset_requested
            == old(run).reset_requested,
        button == PreviewButton::Pause ==> !final(run).running && final(run).reset_requested
            == old(run).reset_requested,
        button == PreviewButton::Stop ==> !final(run).running && final(run).reset_requested,
{
    match button {
        PreviewButton::Play => {
            run.running = true;
        },
        PreviewButton::Pause => {
            run.running = false;
        },
        PreviewButton::Stop => {
            run.running = false;
            run.reset_requested = true;
        },
    }
}

/// Takes a pending restart request. Returns whether the game must restart now.
pub fn take_reset_request(run: &mut GameRunState) -> (reset: bool)
    ensures
        reset == old(run).reset_requested,
        !final(run).reset_requested,
        final(run).running == old(run).running,
{
    let r = run.reset_requested;
    run.reset_requested = false;
    r
}

/// The player's maximum hit points and attack for a level chosen in the settings: from
/// level 20 on the maximum is 99, below it is `16 + 4 * lv`; the attack is `20 + 2 * (lv - 1)`.
pub fn level_stats(lv: i32) -> (r: (i64, i64))
    ensures
        r.0 == if lv >= 20 {
            99
        } else {
            16 + 4 * lv
        },
        r.1 == 20 + 2 * (lv - 1),
{
    let max_hp: i64 = if lv >= 20 {
        99
    } else {
        16 + 4 * (lv as i64)
    };
    let attack: i64 = 20 + 2 * ((lv as i64) - 1);
    (max_hp, attack)
}

/// How many recent projects the browser remembers.
pub const RECENT_PROJECT_LIMIT: usize = 10;

/// The project browser: the open project, what is selected in it, a file being renamed,
/// the recent projects (most recent first) and the folders shown open. Paths are text.
pub struct ProjectBrowserState {
    pub current_project: Option<String>,
    pub selected_folder: Option<String>,
    pub selected_file: Option<String>,
    pub renaming_file: Option<String>,
    pub rename_buffer: String,
    pub rename_extension: String,
    pub rename_focus_requested: bool,
    pub recent_projects: Vec<String>,
    pub expanded_folders: Vec<String>,
}

impl ProjectBrowserState {
    /// The recent projects hold no path twice and no more than the limit; no folder is
    /// listed twice as open.
    pub open spec fn wf(&self) -> bool {
        &&& no_dups(strings_view(self.recent_projects@))
        &&& self.recent_projects@.len() <= RECENT_PROJECT_LIMIT
        &&& no_dups(strings_view(self.expanded_folders@))
    }

    /// The folders shown open.
    pub open spec fn expanded(&self) -> Set<Seq<char>> {
        strings_view(self.expanded_folders@).to_set()
    }
}

impl Default for ProjectBrowserState {
    fn default() -> (s: Self)
        ensures
            s.wf(),
            s.current_project is None,
            s.selected_folder is None,
            s.selected_file is None,
            s.renaming_file is None,
            s.recent_projects@.len() == 0,
            s.expanded_folders@.len() == 0,
    {
        ProjectBrowserState {
            current_project: None,
            selected_folder: None,
            selected_file: None,
            renaming_file: None,
            rename_buffer: String::new(),
            rename_extension: String::new(),
            rename_focus_requested: false,
            recent_projects: Vec::new(),
            expanded_folders: Vec::new(),
        }
    }
}

/// The paths other than `path`.
pub open spec fn other_than(path: Seq<char>) -> spec_fn(Seq<char>) -> bool {
    |r: Seq<char>| r != path
}

/// The recent projects after opening `path`: it goes first, its earlier place is dropped,
/// and the list is cut to the limit.
pub open spec fn recent_after(recent: Seq<Seq<char>>, path: Seq<char>) -> Seq<Seq<char>> {
    let moved = seq![path] + recent.filter(other_than(path));
    if moved.len() > RECENT_PROJECT_LIMIT {
        moved.take(RECENT_PROJECT_LIMIT as int)
    } else {
        moved
    }
}

/// Shows the folder kept as `path` open.
fn expand_key(state: &mut ProjectBrowserState, path: &str)
    requires
        old(state).wf(),
    ensures
        final(state).wf(),
        final(state).expanded() == old(state).expanded().insert(path@),
        final(state).current_project == old(state).current_project,
        final(state).selected_folder == old(state).selected_folder,
        final(state).selected_file == old(state).selected_file,
        final(state).renaming_file == old(state).renaming_file,
        final(state).recent_projects == old(state).recent_projects,
        final(state).rename_buffer == old(state).rename_buffer,
        final(state).rename_extension == old(state).rename_extension,
        final(state).rename_focus_requested == old(state).rename_focus_requested,
{
    if !contains_name(&state.expanded_folders, path) {
        let ghost before = strings_view(state.expanded_folders@);
        state.expanded_folders.push(owned(path));
        assert(strings_view(state.expanded_folders@) =~= before.push(path@));
        assert(before.push(path@).to_set() =~= before.to_set().insert(path@)) by {
            vstd::seq_lib::lemma_seq_contains_after_push(before, path@, path@);
            assert forall|x: Seq<char>| before.push(path@).contains(x) <==> before.contains(x)
                || x == path@ by {
                if before.push(path@).contains(x) {
                    let k = choose|k: int| 0 <= k < before.len() + 1 && before.push(path@)[k] == x;
                    if k < before.len() {
                        assert(before[k] == x);
                    }
                }
                if before.contains(x) {
                    let k = choose|k: int| 0 <= k < before.len() && before[k] == x;
                    assert(before.push(path@)[k] == x);
                }
                if x == path@ {
                    assert(before.push(path@)[before.len() as int] == x);
                }
            }
        }
    } else {
        assert(old(state).expanded().insert(path@) =~= old(state).expanded());
    }
}

/// Shows the folder kept as `path` closed.
fn collapse_key(state: &mut ProjectBrowserState, path: &str)
    requires
        old(state).wf(),
    ensures
        final(state).wf(),
        final(state).expanded() == old(state).expanded().remove(path@),
        final(state).current_project == old(state).current_project,
        final(state).selected_folder == old(state).selected_folder,
        final(state).selected_file == old(state).selected_file,
        final(state).renaming_file == old(state).renaming_file,
        final(state).recent_projects == old(state).recent_projects,
        final(state).rename_buffer == old(state).rename_buffer,
        final(state).rename_extension == old(state).rename_extension,
        final(state).rename_focus_requested == old(state).rename_focus_requested,
{
    let ghost old_view = strings_view(state.expanded_folders@);
    let n = state.expanded_folders.len();
    let mut kept: Vec<String> = Vec::new();
    let mut i: usize = 0;
    while i < n
        invariant
            n == state.expanded_folders@.len(),
            old_view == strings_view(state.expanded_folders@),
            no_dups(old_view),
            i <= n,
            no_dups(strings_view(kept@)),
            strings_view(kept@).to_set() == old_view.take(i as int).to_set().remove(path@),
            forall|k: int| #![trigger kept@[k]] 0 <= k < kept@.len() ==> exists|j: int| 0 <= j < i && #[trigger] old_view[j] == kept@[k]@,
        decreases n - i,
    {
        let ghost before = strings_view(kept@);
        let ghost pre = old_view.take(i as int);
        let ghost nxt = old_view.take(i + 1);
        let item = &state.expanded_folders[i];
        assert(nxt =~= pre.push(old_view[i as int]));
        if !str_eq(item.as_str(), path) {
            kept.push(item.clone());
            assert(strings_view(kept@) =~= before.push(old_view[i as int]));
            assert forall|a: int, b: int| 0 <= a < b < kept@.len() implies strings_view(kept@)[a]
                != strings_view(kept@)[b] by {
                if b == kept@.len() - 1 {
                    let j = choose|j: int| 0 <= j < i && #[trigger] old_view[j] == kept@[a]@;
                    assert(old_view[j] != old_view[i as int]);
                }
            }
            assert(strings_view(kept@).to_set() =~= nxt.to_set().remove(path@)) by {
                assert forall|x: Seq<char>| strings_view(kept@).contains(x) <==> nxt.contains(x) && x != path@ by {
                    if strings_view(kept@).contains(x) {
                        let k = choose|k: int| 0 <= k < kept@.len() && strings_view(kept@)[k] == x;
                        if k < kept@.len() - 1 {
                            assert(before[k] == x);
                            assert(before.to_set().contains(x));
                            let m = choose|m: int| 0 <= m < pre.len() && pre[m] == x;
                            assert(nxt[m] == x);
                        } else {
                            assert(nxt[i as int] == x);
                        }
                    }
                    if nxt.contains(x) && x != path@ {
                        let m = choose|m: int| 0 <= m < nxt.len() && nxt[m] == x;
                        if m < i {
                            assert(pre[m] == x);
                            assert(pre.to_set().remove(path@).contains(x));
                            assert(before.contains(x));
                            let k = choose|k: int| 0 <= k < before.len() && before[k] == x;
                            assert(strings_view(kept@)[k] == x);
                        } else {
                            assert(strings_view(kept@)[kept@.len() - 1] == x);
                        }
                    }
                }
            }
            assert forall|k: int| #![trigger kept@[k]] 0 <= k < kept@.len() implies exists|j: int| 0 <= j < i + 1 && #[trigger] old_view[j] == kept@[k]@ by {
                if k == kept@.len() - 1 {
                    assert(old_view[i as int] == kept@[k]@);
                } else {
                    let j = choose|j: int| 0 <= j < i && #[trigger] old_view[j] == kept@[k]@;
                }
            }
        } else {
            assert(strings_view(kept@).to_set() =~= nxt.to_set().remove(path@)) by {
                assert forall|x: Seq<char>| nxt.contains(x) && x != path@ implies pre.contains(x) by {
                    let m = choose|m: int| 0 <= m < nxt.len() && nxt[m] == x;
                    assert(m < i);
                    assert(pre[m] == x);
                }
                assert forall|x: Seq<char>| pre.contains(x) implies nxt.contains(x) by {
                    let m = choose|m: int| 0 <= m < pre.len() && pre[m] == x;
                    assert(nxt[m] == x);
                }
            }
        }
        i = i + 1;
    }
    assert(old_view.take(n as int) =~= old_view);
    state.expanded_folders = kept;
}

/// Shows the folder `path` open. Open folders are kept by their components (`path_key`),
/// so two spellings of one folder are one folder.
pub fn expand_folder(state: &mut ProjectBrowserState, path: &str)
    requires
        old(state).wf(),
    ensures
        final(state).wf(),
        final(state).expanded() == old(state).expanded().insert(path_key(path@)),
        final(state).current_project == old(state).current_project,
        final(state).selected_folder == old(state).selected_folder,
        final(state).selected_file == old(state).selected_file,
        final(state).renaming_file == old(state).renaming_file,
        final(state).recent_projects == old(state).recent_projects,
        final(state).rename_buffer == old(state).rename_buffer,
        final(state).rename_extension == old(state).rename_extension,
        final(state).rename_focus_requested == old(state).rename_focus_requested,
{
    let key = normalize_path(path);
    expand_key(state, key.as_str());
}

/// Shows the folder `path` closed, whatever spelling it was opened with.
pub fn collapse_folder(state: &mut ProjectBrowserState, path: &str)
    requires
        old(state).wf(),
    ensures
        final(state).wf(),
        final(state).expanded() == old(state).expanded().remove(path_key(path@)),
        final(state).current_project == old(state).current_project,
        final(state).selected_folder == old(state).selected_folder,
        final(state).selected_file == old(state).selected_file,
        final(state).renaming_file == old(state).renaming_file,
        final(state).recent_projects == old(state).recent_projects,
        final(state).rename_buffer == old(state).rename_buffer,
        final(state).rename_extension == old(state).rename_extension,
        final(state).rename_focus_requested == old(state).rename_focus_requested,
{
    let key = normalize_path(path);
    collapse_key(state, key.as_str());
}

/// Opens the project at `path`: it becomes the open project and the selected folder, is
/// shown open, nothing is selected or renamed in it, and it goes first among the recent
/// projects (`recent_after`). The recent projects and the open folders are kept by the
/// path's components (`path_key`), so another spelling of a recent project replaces it.
pub fn set_current_project(state: &mut ProjectBrowserState, path: String)
    requires
        old(state).wf(),
    ensures
        final(state).wf(),
        opt_view(final(state).current_project) == Some(path@),
        opt_view(final(state).selected_folder) == Some(path@),
        final(state).selected_file is None,
        final(state).renaming_file is None,
        final(state).expanded() == old(state).expanded().insert(path_key(path@)),
        strings_view(final(state).recent_projects@) == recent_after(
            strings_view(old(state).recent_projects@),
            path_key(path@),
        ),
        final(state).rename_buffer == old(state).rename_buffer,
        final(state).rename_extension == old(state).rename_extension,
        final(state).rename_focus_requested == old(state).rename_focus_requested,
{
    state.current_project = Some(path.clone());
    state.selected_folder = Some(path.clone());
    state.selected_file = None;
    state.renaming_file = None;
    let path = normalize_path(path.as_str());
    expand_key(state, path.as_str());
    let ghost rv = strings_view(state.recent_projects@);
    let ghost pred = other_than(path@);
    let n = state.recent_projects.len();
    let mut kept: Vec<String> = Vec::new();
    let mut i: usize = 0;
    proof {
        reveal(Seq::filter);
        assert(rv.take(0).filter(pred) =~= Seq::<Seq<char>>::empty());
    }
    while i < n
        invariant
            n == state.recent_projects@.len(),
            rv == strings_view(state.recent_projects@),
            no_dups(rv),
            pred == other_than(path@),
            i <= n,
            strings_view(kept@) == rv.take(i as int).filter(pred),
            no_dups(strings_view(kept@)),
            forall|k: int| 0 <= k < kept@.len() ==> kept@[k]@ != path@,
            forall|k: int| #![trigger kept@[k]] 0 <= k < kept@.len() ==> exists|j: int| 0 <= j < i && #[trigger] rv[j] == kept@[k]@,
        decreases n - i,
    {
        let ghost before = strings_view(kept@);
        let item = &state.recent_projects[i];
        assert(rv.take(i + 1).drop_last() =~= rv.take(i as int));
        assert(rv.take(i + 1).last() == rv[i as int]);
        if !str_eq(item.as_str(), path.as_str()) {
            assert(pred(rv[i as int]));
            reveal(Seq::filter);
            assert(rv.take(i + 1).filter(pred) == rv.take(i as int).filter(pred).push(rv[i as int]));
            kept.push(item.clone());
            assert(strings_view(kept@) =~= before.push(rv[i as int]));
            assert forall|a: int, b: int| 0 <= a < b < kept@.len() implies strings_view(kept@)[a]
                != strings_view(kept@)[b] by {
                if b == kept@.len() - 1 {
                    let j = choose|j: int| 0 <= j < i && #[trigger] rv[j] == kept@[a]@;
                    assert(rv[j] != rv[i as int]);
                }
            }
            assert forall|k: int| #![trigger kept@[k]] 0 <= k < kept@.len() implies exists|j: int| 0 <= j < i + 1 && #[trigger] rv[j] == kept@[k]@ by {
                if k == kept@.len() - 1 {
                    assert(rv[i as int] == kept@[k]@);
                } else {
                    let j = choose|j: int| 0 <= j < i && #[trigger] rv[j] == kept@[k]@;
                }
            }
        } else {
            assert(!pred(rv[i as int]));
            reveal(Seq::filter);
            assert(rv.take(i + 1).filter(pred) == rv.take(i as int).filter(pred));
        }
        i = i + 1;
    }
    assert(rv.take(n as int) =~= rv);
    let mut recent: Vec<String> = Vec::new();
    recent.push(path);
    let ghost head = strings_view(recent@);
    recent.append(&mut kept);
    let ghost moved = seq![path@] + rv.filter(pred);
    assert(strings_view(recent@) =~= moved) by {
        assert(head =~= seq![path@]);
    }
    assert(no_dups(moved)) by {
        assert forall|a: int, b: int| 0 <= a < b < moved.len() implies moved[a] != moved[b] by {
            if a == 0 {
                assert(moved[b] == strings_view(recent@)[b]);
            } else {
                assert(moved[a] == rv.filter(pred)[a - 1]);
            }
        }
    }
    if recent.len() > RECENT_PROJECT_LIMIT {
        recent.truncate(RECENT_PROJECT_LIMIT);
        assert(strings_view(recent@) =~= moved.take(RECENT_PROJECT_LIMIT as int));
    }
    state.recent_projects = recent;
}

/// Opening the same project twice in a row leaves the recent projects as the first
/// opening left them.
pub proof fn law_reopen_keeps_recent(recent: Seq<Seq<char>>, path: Seq<char>)
    requires
        no_dups(recent),
        recent.len() <= RECENT_PROJECT_LIMIT,
    ensures
        recent_after(recent_after(recent, path), path) == recent_after(recent, path),
{
    let once = recent_after(recent, path);
    let f = recent.filter(other_than(path));
    assert(once[0] == path);
    let rest = once.drop_first();
    assert(rest =~= f.take(once.len() - 1));
    lemma_filter_all_other(rest, path);
    assert(once.filter(other_than(path)) =~= rest) by {
        lemma_filter_after_head(once, path);
    }
    assert(seq![path] + rest =~= once);
}

/// A filter that removes `path` keeps a sequence in which `path` does not occur.
proof fn lemma_filter_all_other(s: Seq<Seq<char>>, path: Seq<char>)
    requires
        forall|k: int| 0 <= k < s.len() ==> s[k] != path,
    ensures
        s.filter(other_than(path)) == s,
    decreases s.len(),
{
    reveal(Seq::filter);
    if s.len() > 0 {
        lemma_filter_all_other(s.drop_last(), path);
        assert(other_than(path)(s.last()));
        assert(s.drop_last().push(s.last()) =~= s);
    } else {
        assert(s.filter(other_than(path)) =~= s);
    }
}

/// Filtering `path` out of a sequence that starts with it and has it nowhere else drops
/// just its head.
proof fn lemma_filter_after_head(s: Seq<Seq<char>>, path: Seq<char>)
    requires
        s.len() > 0,
        s[0] == path,
        forall|k: int| 1 <= k < s.len() ==> s[k] != path,
    ensures
        s.filter(other_than(path)) == s.drop_first(),
    decreases s.len(),
{
    reveal(Seq::filter);
    if s.len() == 1 {
        assert(s.drop_last() =~= Seq::<Seq<char>>::empty());
        assert(s.drop_last().filter(other_than(path)) =~= Seq::<Seq<char>>::empty());
        assert(!other_than(path)(s.last()));
        assert(s.drop_first() =~= Seq::<Seq<char>>::empty());
    } else {
        lemma_filter_after_head(s.drop_last(), path);
        assert(other_than(path)(s.last()));
        assert(s.drop_last().drop_first().push(s.last()) =~= s.drop_first());
    }
}

/// A folder's label in the tree was clicked: it becomes the selected folder, with no file
/// selected.
pub fn tree_folder_clicked(state: &mut ProjectBrowserState, path: &str)
    ensures
        *final(state) == (ProjectBrowserState {
            selected_folder: final(state).selected_folder,
            selected_file: None,
            ..*old(state)
        }),
        opt_view(final(state).selected_folder) == Some(path@),
{
    state.selected_folder = Some(owned(path));
    state.selected_file = None;
}

/// The tree draws the folder `path`; `toggle_clicked` tells whether its open/closed icon
/// was clicked. The folder is open when it was shown open, or the other way round when
/// the icon was clicked. Returns whether it is open (then the tree lists its entries).
pub fn tree_folder_toggle(state: &mut ProjectBrowserState, path: &str, toggle_clicked: bool) -> (open: bool)
    requires
        old(state).wf(),
    ensures
        final(state).wf(),
        open == (old(state).expanded().contains(path_key(path@)) != toggle_clicked),
        open ==> final(state).expanded() == old(state).expanded().insert(path_key(path@)),
        !open ==> final(state).expanded() == old(state).expanded().remove(path_key(path@)),
        final(state).selected_folder == old(state).selected_folder,
        final(state).selected_file == old(state).selected_file,
        final(state).recent_projects == old(state).recent_projects,
{
    let key = normalize_path(path);
    let was_open = contains_name(&state.expanded_folders, key.as_str());
    assert(was_open == old(state).expanded().contains(key@));
    let open = if toggle_clicked {
        !was_open
    } else {
        was_open
    };
    if open {
        expand_key(state, key.as_str());
    } else {
        collapse_key(state, key.as_str());
    }
    open
}

/// A file in the tree was clicked: it and its folder become selected, and no file is
/// being renamed.
pub fn tree_file_clicked(state: &mut ProjectBrowserState, folder: &str, file: &str)
    ensures
        opt_view(final(state).selected_folder) == Some(folder@),
        opt_view(final(state).selected_file) == Some(file@),
        final(state).renaming_file is None,
        final(state).current_project == old(state).current_project,
        final(state).recent_projects == old(state).recent_projects,
        final(state).expanded_folders == old(state).expanded_folders,
{
    state.selected_folder = Some(owned(folder));
    state.selected_file = Some(owned(file));
    state.renaming_file = None;
}

/// An entry of the file grid was clicked once: a folder opens (selected and shown open,
/// no file selected), a file becomes selected. Either way no file is being renamed.
pub fn grid_entry_clicked(state: &mut ProjectBrowserState, path: &str, is_dir: bool)
    requires
        old(state).wf(),
    ensures
        final(state).wf(),
        final(state).renaming_file is None,
        is_dir ==> opt_view(final(state).selected_folder) == Some(path@) && final(state).selected_file is None && final(state).expanded() == old(state).expanded().insert(path_key(path@)),
        !is_dir ==> opt_view(final(state).selected_file) == Some(path@) && final(state).selected_folder == old(state).selected_folder && final(state).expanded_folders == old(state).expanded_folders,
        final(state).recent_projects == old(state).recent_projects,
        final(state).current_project == old(state).current_project,
{
    if is_dir {
        state.selected_folder = Some(owned(path));
        state.selected_file = None;
        state.renaming_file = None;
        expand_folder(state, path);
    } else {
        state.selected_file = Some(owned(path));
        state.renaming_file = None;
    }
}

/// Whether the names are in ascending order: none sorts before an earlier one.
pub open spec fn names_sorted(v: Seq<Seq<char>>) -> bool {
    forall|i: int, j: int| 0 <= i < j < v.len() ==> !seq_lt(#[trigger] v[j], #[trigger] v[i])
}

/// Inserting `x` at `k` into sorted names keeps them sorted, when no name before `k` sorts
/// after `x` and the name at `k` (if any) does.
proof fn lemma_insert_sorted(s: Seq<Seq<char>>, k: int, x: Seq<char>)
    requires
        names_sorted(s),
        0 <= k <= s.len(),
        forall|m: int| 0 <= m < k ==> !seq_lt(x, #[trigger] s[m]),
        k < s.len() ==> seq_lt(x, s[k]),
    ensures
        names_sorted(s.insert(k, x)),
{
    let v = s.insert(k, x);
    assert forall|i: int, j: int| 0 <= i < j < v.len() implies !seq_lt(#[trigger] v[j], #[trigger] v[i]) by {
        if i == k {
            assert(v[j] == s[j - 1]);
            if seq_lt(s[j - 1], x) {
                lemma_seq_lt_transitive(s[j - 1], x, s[k]);
                if j - 1 == k {
                    lemma_seq_lt_irreflexive(s[k]);
                }
            }
        } else if j == k {
            assert(v[i] == s[i]);
        } else {
            let si = if i < k { i } else { i - 1 };
            let sj = if j < k { j } else { j - 1 };
            assert(v[i] == s[si] && v[j] == s[sj]);
        }
    }
}

/// The names in ascending order, as `sort` orders strings.
pub fn sort_names(names: &Vec<String>) -> (r: Vec<String>)
    ensures
        names_sorted(strings_view(r@)),
        strings_view(r@).to_multiset() == strings_view(names@).to_multiset(),
{
    let n = names.len();
    let mut r: Vec<String> = Vec::new();
    let mut i: usize = 0;
    assert(strings_view(r@) =~= strings_view(names@).take(0));
    while i < n
        invariant
            n == names@.len(),
            i <= n,
            names_sorted(strings_view(r@)),
            strings_view(r@).to_multiset() == strings_view(names@).take(i as int).to_multiset(),
        decreases n - i,
    {
        let x = names[i].clone();
        let ghost sv = strings_view(r@);
        let mut k: usize = 0;
        while k < r.len()
            invariant
                k <= r@.len(),
                sv == strings_view(r@),
                forall|m: int| 0 <= m < k ==> !seq_lt(x@, #[trigger] sv[m]),
            ensures
                k <= r@.len(),
                forall|m: int| 0 <= m < k ==> !seq_lt(x@, #[trigger] sv[m]),
                k < r@.len() ==> seq_lt(x@, sv[k as int]),
            decreases r@.len() - k,
        {
            if str_lt(x.as_str(), r[k].as_str()) {
                break;
            }
            k = k + 1;
        }
        proof {
            lemma_insert_sorted(sv, k as int, x@);
        }
        let ghost xv = x@;
        r.insert(k, x);
        proof {
            let pre = strings_view(names@).take(i as int);
            assert(strings_view(r@) =~= sv.insert(k as int, xv));
            vstd::seq_lib::to_multiset_insert(sv, k as int, xv);
            assert(xv == names@[i as int]@);
            assert(strings_view(names@).take(i + 1) =~= pre.push(xv));
            vstd::seq_lib::to_multiset_build(pre, xv);
        }
        i = i + 1;
    }
    assert(strings_view(names@).take(n as int) =~= strings_view(names@));
    r
}

/// The entries of a folder as the file grid lists them: its subfolders, then its files,
/// each group in ascending order of name; `true` marks a folder.
pub fn grid_entries(folders: &Vec<String>, files: &Vec<String>) -> (r: Vec<(bool, String)>)
    ensures
        r@.len() == folders@.len() + files@.len(),
        forall|i: int| 0 <= i < r@.len() ==> (#[trigger] r@[i]).0 == (i < folders@.len()),
        names_sorted(r@.take(folders@.len() as int).map_values(|e: (bool, String)| e.1@)),
        r@.take(folders@.len() as int).map_values(|e: (bool, String)| e.1@).to_multiset()
            == strings_view(folders@).to_multiset(),
        names_sorted(r@.skip(folders@.len() as int).map_values(|e: (bool, String)| e.1@)),
        r@.skip(folders@.len() as int).map_values(|e: (bool, String)| e.1@).to_multiset()
            == strings_view(files@).to_multiset(),
{
    let dirs = sort_names(folders);
    let plain = sort_names(files);
    proof {
        broadcast use vstd::seq_lib::to_multiset_len;
        assert(strings_view(dirs@).to_multiset().len() == strings_view(folders@).to_multiset().len());
        assert(strings_view(plain@).to_multiset().len() == strings_view(files@).to_multiset().len());
    }
    let mut r: Vec<(bool, String)> = Vec::new();
    let nd = dirs.len();
    let mut i: usize = 0;
    while i < nd
        invariant
            nd == dirs@.len(),
            i <= nd,
            r@.len() == i,
            forall|m: int| 0 <= m < i ==> (#[trigger] r@[m]).0 && r@[m].1@ == dirs@[m]@,
        decreases nd - i,
    {
        r.push((true, dirs[i].clone()));
        i = i + 1;
    }
    let np = plain.len();
    let mut j: usize = 0;
    while j < np
        invariant
            nd == dirs@.len(),
            np == plain@.len(),
            j <= np,
            r@.len() == nd + j,
            forall|m: int| 0 <= m < nd ==> (#[trigger] r@[m]).0 && r@[m].1@ == dirs@[m]@,
            forall|m: int| nd <= m < nd + j ==> !(#[trigger] r@[m]).0 && r@[m].1@ == plain@[m - nd]@,
        decreases np - j,
    {
        r.push((false, plain[j].clone()));
        j = j + 1;
    }
    assert(r@.take(nd as int).map_values(|e: (bool, String)| e.1@) =~= strings_view(dirs@));
    assert(r@.skip(nd as int).map_values(|e: (bool, String)| e.1@) =~= strings_view(plain@));
    r
}

/// The position of the last `c` in `s`, or -1.
pub open spec fn last_index_of(s: Seq<char>, c: char) -> int
    decreases s.len(),
{
    if s.len() == 0 {
        -1
    } else if s.last() == c {
        s.len() - 1
    } else {
        last_index_of(s.drop_last(), c)
    }
}

proof fn lemma_last_index_of(s: Seq<char>, c: char)
    ensures
        -1 <= last_index_of(s, c) < s.len(),
        last_index_of(s, c) >= 0 ==> s[last_index_of(s, c)] == c,
        forall|j: int| last_index_of(s, c) < j < s.len() ==> s[j] != c,
    decreases s.len(),
{
    if s.len() > 0 && s.last() != c {
        lemma_last_index_of(s.drop_last(), c);
        assert forall|j: int| last_index_of(s, c) < j < s.len() implies s[j] != c by {
            if j < s.len() - 1 {
                assert(s.drop_last()[j] == s[j]);
            }
        }
    }
}

/// A file name's stem and extension, as `Path::file_stem` and `Path::extension` give them:
/// the extension follows the last dot, except that a name with no dot, a name whose only
/// dot leads it, and `..` have none (and then the stem is the whole name).
pub open spec fn stem_and_extension(name: Seq<char>) -> (Seq<char>, Option<Seq<char>>) {
    let k = last_index_of(name, '.');
    if name == ".."@ || k <= 0 {
        (name, None)
    } else {
        (name.take(k), Some(name.skip(k + 1)))
    }
}

/// Splits a file name (a directory entry's name, so without `/`) into stem and extension.
pub fn split_file_name(name: &str) -> (r: (String, Option<String>))
    requires
        !name@.contains('/'),
    ensures
        r.0@ == stem_and_extension(name@).0,
        opt_view(r.1) == stem_and_extension(name@).1,
{
    proof {
        lemma_last_index_of(name@, '.');
    }
    let n = name.unicode_len();
    let mut k: usize = n;
    while k > 0
        invariant
            n == name@.len(),
            k <= n,
            forall|j: int| k <= j < n ==> name@[j] != '.',
        ensures
            k == 0 || name@[k - 1] == '.',
            forall|j: int| k <= j < n ==> name@[j] != '.',
        decreases k,
    {
        if name.get_char(k - 1) == '.' {
            break;
        }
        k = k - 1;
    }
    proof {
        if k > 0 && name@[k - 1] == '.' {
            assert(last_index_of(name@, '.') == k - 1) by {
                let l = last_index_of(name@, '.');
                if l > k - 1 {
                    assert(name@[l] == '.');
                }
                if l < k - 1 {
                    assert(name@[k - 1] != '.');
                }
            }
        } else {
            assert(last_index_of(name@, '.') == -1) by {
                let l = last_index_of(name@, '.');
                if l >= 0 {
                    assert(name@[l] == '.');
                }
            }
        }
    }
    if str_eq(name, "..") || k <= 1 || name.get_char(k - 1) != '.' {
        (owned(name), None)
    } else {
        let stem = name.substring_char(0, k - 1);
        let ext = name.substring_char(k, n);
        (owned(stem), Some(owned(ext)))
    }
}

/// A file of the grid was double-clicked: it becomes selected and is renamed in place,
/// the edit box holding its stem and the extension shown beside it (with its dot).
pub fn begin_rename(state: &mut ProjectBrowserState, path: &str, name: &str)
    requires
        !name@.contains('/'),
    ensures
        opt_view(final(state).selected_file) == Some(path@),
        opt_view(final(state).renaming_file) == Some(path@),
        final(state).rename_buffer@ == stem_and_extension(name@).0,
        final(state).rename_extension@ == match stem_and_extension(name@).1 {
            Some(e) => "."@ + e,
            None => Seq::<char>::empty(),
        },
        final(state).rename_focus_requested,
        final(state).selected_folder == old(state).selected_folder,
        final(state).current_project == old(state).current_project,
        final(state).recent_projects == old(state).recent_projects,
        final(state).expanded_folders == old(state).expanded_folders,
{
    let (stem, ext) = split_file_name(name);
    state.selected_file = Some(owned(path));
    state.renaming_file = Some(owned(path));
    state.rename_buffer = stem;
    state.rename_extension = match ext {
        Some(e) => concat(".", e.as_str()),
        None => String::new(),
    };
    state.rename_focus_requested = true;
}

/// Unicode's `White_Space` property, the white space that `str::trim` removes.
pub open spec fn is_white_space(c: char) -> bool {
    ||| '\u{9}' <= c <= '\u{d}'
    ||| c == ' '
    ||| c == '\u{85}'
    ||| c == '\u{a0}'
    ||| c == '\u{1680}'
    ||| '\u{2000}' <= c <= '\u{200a}'
    ||| c == '\u{2028}'
    ||| c == '\u{2029}'
    ||| c == '\u{202f}'
    ||| c == '\u{205f}'
    ||| c == '\u{3000}'
}

/// `s` without its leading white space.
pub open spec fn trim_start(s: Seq<char>) -> Seq<char>
    decreases s.len(),
{
    if s.len() > 0 && is_white_space(s[0]) {
        trim_start(s.drop_first())
    } else {
        s
    }
}

/// `s` without its trailing white space.
pub open spec fn trim_end(s: Seq<char>) -> Seq<char>
    decreases s.len(),
{
    if s.len() > 0 && is_white_space(s.last()) {
        trim_end(s.drop_last())
    } else {
        s
    }
}

/// `s` without leading and trailing white space.
pub open spec fn trimmed(s: Seq<char>) -> Seq<char> {
    trim_end(trim_start(s))
}

/// `str::trim`: `s` without leading and trailing white space, white space being the
/// characters with Unicode's `White_Space` property.
#[verifier::external_body]
fn trim(s: &str) -> (r: &str)
    ensures
        r@ == trimmed(s@),
{
    s.trim()
}

/// The new name of a file being renamed: the edit box's text without surrounding white
/// space, followed by the extension; none when that text is empty.
pub fn rename_target(buffer: &str, extension: &str) -> (r: Option<String>)
    ensures
        trimmed(buffer@).len() == 0 ==> r is None,
        trimmed(buffer@).len() > 0 ==> opt_view(r) == Some(trimmed(buffer@) + extension@),
{
    let base = trim(buffer);
    if base.unicode_len() == 0 {
        None
    } else {
        Some(concat(base, extension))
    }
}

/// The rename ended: when the file was renamed to `renamed_to` it stays selected under its
/// new path. No file is being renamed any more.
pub fn finish_rename(state: &mut ProjectBrowserState, renamed_to: Option<String>)
    ensures
        final(state).renaming_file is None,
        final(state).selected_file == match renamed_to {
            Some(p) => Some(p),
            None => old(state).selected_file,
        },
        final(state).selected_folder == old(state).selected_folder,
        final(state).current_project == old(state).current_project,
        final(state).recent_projects == old(state).recent_projects,
        final(state).expanded_folders == old(state).expanded_folders,
{
    if let Some(p) = renamed_to {
        state.selected_file = Some(p);
    }
    state.renaming_file = None;
}

/// Splitting a file name and joining its stem and extension with a dot gives the name back.
pub proof fn law_split_file_name_round_trip(name: Seq<char>)
    ensures
        match stem_and_extension(name) {
            (stem, Some(ext)) => stem + "."@ + ext == name,
            (stem, None) => stem == name,
        },
{
    lemma_last_index_of(name, '.');
    let k = last_index_of(name, '.');
    reveal_strlit(".");
    if !(name == ".."@ || k <= 0) {
        assert(name.take(k) + "."@ + name.skip(k + 1) =~= name);
    }
}

} // verus!
