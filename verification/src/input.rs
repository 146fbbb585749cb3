//! Keys and window events that act on the whole program rather than on the battle.
use vstd::prelude::*;

verus! {

/// The keys this frame that the program-wide shortcuts read: `*_pressed` ones went down
/// this frame, `*_held` ones are down.
#[derive(Clone, Copy)]
pub struct GlobalKeys {
    pub escape_pressed: bool,
    pub alt_held: bool,
    pub enter_pressed: bool,
    pub shift_held: bool,
    pub w_pressed: bool,
    pub r_pressed: bool,
    pub e_pressed: bool,
}

/// What the program-wide shortcuts ask for this frame.
pub struct GlobalActions {
    /// Escape: quit.
    pub exit: bool,
    /// Alt+Enter: switch the game window between windowed and borderless full screen.
    pub toggle_fullscreen: bool,
    /// Shift+W: show the game window.
    pub show_window: bool,
    /// Shift+R: restart the battle, unless the editor is taking typed text.
    pub reset: bool,
    /// Shift+E: open the editor window, unless it is open.
    pub spawn_editor: bool,
}

/// The program-wide shortcuts. `editor_typing` tells whether the editor is taking typed
/// text, `editor_open` whether its window is open.
pub fn global_input_actions(keys: GlobalKeys, editor_typing: bool, editor_open: bool) -> (a: GlobalActions)
    ensures
        a.exit == keys.escape_pressed,
        a.toggle_fullscreen == (keys.alt_held && keys.enter_pressed),
        a.show_window == (keys.shift_held && keys.w_pressed),
        a.reset == (keys.shift_held && keys.r_pressed && !editor_typing),
        a.spawn_editor == (keys.shift_held && keys.e_pressed && !editor_open),
{
    GlobalActions {
        exit: keys.escape_pressed,
        toggle_fullscreen: keys.alt_held && keys.enter_pressed,
        show_window: keys.shift_held && keys.w_pressed,
        reset: keys.shift_held && keys.r_pressed && !editor_typing,
        spawn_editor: keys.shift_held && keys.e_pressed && !editor_open,
    }
}

/// What closing a window does.
#[derive(Clone, Copy, Debug, PartialEq, Eq, Structural)]
pub enum CloseAction {
    /// The editor closes: the program ends.
    Exit,
    /// The game window only hides.
    Hide,
    /// Not a window the program watches.
    Ignore,
}

/// A window is asked to close (or has closed): the editor's window ends the program, the
/// game's window hides (only when it was asked, not once it is gone).
pub fn close_action(is_editor: bool, is_game_window: bool, already_closed: bool) -> (a: CloseAction)
    ensures
        is_editor ==> a == CloseAction::Exit,
        !is_editor && is_game_window && !already_closed ==> a == CloseAction::Hide,
        !is_editor && !(is_game_window && !already_closed) ==> a == CloseAction::Ignore,
{
    if is_editor {
        CloseAction::Exit
    } else if is_game_window && !already_closed {
        CloseAction::Hide
    } else {
        CloseAction::Ignore
    }
}

} // verus!
