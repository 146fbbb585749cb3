//! The battle's state: what the player, the enemy, the menu and the turn flow hold.
use vstd::prelude::*;
use crate::names::NameMap;

verus! {

/// The project whose scripts the game runs.
pub const PROJECT_NAME: &'static str = "default";

/// Menu layers.
pub const MENU_LAYER_TOP: i32 = 0;
pub const MENU_LAYER_FIGHT_TARGET: i32 = 1;
pub const MENU_LAYER_ACT_TARGET: i32 = 2;
pub const MENU_LAYER_ITEM: i32 = 3;
pub const MENU_LAYER_MERCY: i32 = 4;
pub const MENU_LAYER_ACT_COMMAND: i32 = 10;

/// How many items one page of the item menu shows.
pub const ITEMS_PER_PAGE: usize = 4;

/// How many cursor slots the menu keeps (one per layer number up to the act commands).
pub const MENU_COORD_SLOTS: usize = 11;

/// Whether `l` is one of the menu layers.
pub open spec fn valid_layer(l: i32) -> bool {
    l == MENU_LAYER_TOP || l == MENU_LAYER_FIGHT_TARGET || l == MENU_LAYER_ACT_TARGET || l
        == MENU_LAYER_ITEM || l == MENU_LAYER_MERCY || l == MENU_LAYER_ACT_COMMAND
}

/// What the main battle flow is doing.
#[derive(Clone, Copy, Debug, PartialEq, Eq, Structural)]
pub enum MainFightState {
    Menu,
    EnemyDialog,
    EnemyAttack,
    TurnCleanup,
    PlayerAttackBar,
    PlayerAttackResolve,
    PlayerDefeated,
}

impl Default for MainFightState {
    fn default() -> (r: Self)
        ensures
            r == MainFightState::Menu,
    {
        MainFightState::Menu
    }
}

/// Whether a message of the player's action is on screen.
#[derive(Clone, Copy, Debug, PartialEq, Eq, Structural)]
pub enum MessageFightState {
    NoMessage,
    PlayerActionText,
}

impl Default for MessageFightState {
    fn default() -> (r: Self)
        ensures
            r == MessageFightState::NoMessage,
    {
        MessageFightState::NoMessage
    }
}

/// What an item does when used.
pub struct ItemInfo {
    pub heal_amount: i32,
    pub attack: i32,
    pub defense: i32,
    pub text: String,
}

/// The items a project defines, by name.
pub struct ItemDictionary(pub NameMap<ItemInfo>);

/// The player's state that the rules read (hit points and speeds stay with the host,
/// which holds them as floating-point numbers).
pub struct PlayerState {
    pub lv: i32,
    pub name: String,
    pub inventory: Vec<String>,
    pub equipped_items: Vec<String>,
}

/// The enemy's state that the rules read (its position, scale and head sway stay with
/// the host, which holds them as floating-point numbers).
pub struct EnemyState {
    pub hp: i32,
    pub max_hp: i32,
    pub atk: i32,
    pub def: i32,
    pub name: String,
    pub dialog_text: String,
    pub act_commands: Vec<String>,
    pub act_texts: NameMap<String>,
    pub bubble_messages: Vec<String>,
    pub body_texture: String,
    pub head_texture: String,
    pub tachie_script: String,
    pub attacks: Vec<String>,
    pub bubble_texture: String,
    pub bubble_message_override: Option<String>,
}

/// The menu's layer, cursors, item page and dialog text.
pub struct MenuState {
    pub menu_layer: i32,
    pub menu_coords: Vec<i32>,
    pub item_page: usize,
    pub dialog_text: String,
}

impl MenuState {
    /// The menu is on a known layer and keeps a cursor for each layer.
    pub open spec fn wf(&self) -> bool {
        &&& valid_layer(self.menu_layer)
        &&& self.menu_coords@.len() == MENU_COORD_SLOTS
    }

    /// The cursor of layer `l`.
    pub open spec fn coord(&self, l: i32) -> i32 {
        self.menu_coords@[l as int]
    }
}

/// The turn flow: the two fight states, the current phase script and its turn count,
/// and what the player did last (the timers stay with the host).
pub struct CombatState {
    pub mn_fight: MainFightState,
    pub my_fight: MessageFightState,
    pub phase_name: String,
    pub phase_turn: i32,
    pub turn_count: i32,
    pub last_player_action: String,
    pub last_act_command: Option<String>,
}

} // verus!
