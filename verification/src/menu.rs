//! The main menu's decisions.
//!
//! The menu offers a demo map, a map file to pick, the warehouse
//! generator, and exit. Loading runs as a background task: each frame
//! the task is polled, and when it finishes with a map the loaded
//! resources are installed and the editor is entered; when it finishes
//! empty — no file picked, or a parse failure — the task is simply
//! discarded.

use vstd::prelude::*;

verus! {

/// The screens the application switches between.
#[derive(Clone, Copy, PartialEq, Eq, Structural, Debug)]
pub enum AppState {
    MainMenu,
    TrafficEditor,
    WarehouseGenerator,
}

/// The main menu's buttons.
#[derive(Clone, Copy, PartialEq, Eq, Structural, Debug)]
pub enum MenuButton {
    ViewDemoMap,
    OpenMapFile,
    WarehouseGenerator,
    Exit,
}

/// What a button press starts.
#[derive(Clone, Copy, PartialEq, Eq, Structural, Debug)]
pub enum MenuAction {
    SpawnDemoLoadTask,
    SpawnPickFileLoadTask,
    EnterWarehouseGenerator,
    ExitApp,
}

/// The action each menu button triggers: the demo and file buttons
/// spawn a load task, the other two switch screen or leave.
pub fn menu_action(button: &MenuButton) -> (r: MenuAction)
    ensures
        r == (match button {
            MenuButton::ViewDemoMap => MenuAction::SpawnDemoLoadTask,
            MenuButton::OpenMapFile => MenuAction::SpawnPickFileLoadTask,
            MenuButton::WarehouseGenerator => MenuAction::EnterWarehouseGenerator,
            MenuButton::Exit => MenuAction::ExitApp,
        }),
{
    match button {
        MenuButton::ViewDemoMap => MenuAction::SpawnDemoLoadTask,
        MenuButton::OpenMapFile => MenuAction::SpawnPickFileLoadTask,
        MenuButton::WarehouseGenerator => MenuAction::EnterWarehouseGenerator,
        MenuButton::Exit => MenuAction::ExitApp,
    }
}

/// What a finished load task carries: the path the map was read from,
/// or nothing for the built-in demo map.
pub struct LoadedMap {
    pub file: Option<String>,
}

/// What a load task hands back when it ends: the loaded map on
/// success, nothing when no file was picked or the parse failed.
pub fn finish_load(parse_ok: bool, file: Option<String>) -> (r: Option<LoadedMap>)
    ensures
        parse_ok ==> (r matches Some(m) && m.file == file),
        !parse_ok ==> r is None,
{
    if parse_ok {
        Some(LoadedMap { file })
    } else {
        None
    }
}

/// What one poll of a load task leads to.
pub struct PollOutcome {
    /// The finished task's entity is discarded.
    pub despawn_task: bool,
    /// The loaded map and its source path become the current resources.
    pub install_map: bool,
    /// The screen to switch to, if any.
    pub next_state: Option<AppState>,
}

/// Decide from one poll of a load task. A still-running task changes
/// nothing; a task that ended empty is discarded; a task that ended
/// with a map is discarded too, and the map is installed and the
/// traffic editor entered.
pub fn poll_load_task(polled: &Option<Option<LoadedMap>>) -> (r: PollOutcome)
    ensures
        polled is None ==> !r.despawn_task && !r.install_map && r.next_state is None,
        polled matches Some(done) ==> r.despawn_task && (match done {
            Some(_) => r.install_map && r.next_state == Some(AppState::TrafficEditor),
            None => !r.install_map && r.next_state is None,
        }),
{
    match polled {
        None => PollOutcome { despawn_task: false, install_map: false, next_state: None },
        Some(done) => match done {
            Some(_) => PollOutcome {
                despawn_task: true,
                install_map: true,
                next_state: Some(AppState::TrafficEditor),
            },
            None => PollOutcome { despawn_task: true, install_map: false, next_state: None },
        },
    }
}

} // verus!
