//! The tray menu: its seven fixed entries with stable textual ids, and the
//! dispatch from a clicked id to the effect the shell must carry out. "Quit"
//! is the one terminal transition; every other action leaves the tray
//! available for further actions.

use vstd::prelude::*;
use crate::text::str_eq;

verus! {

/// The seven fixed tray menu actions.
#[derive(Clone, Copy, PartialEq, Eq, Structural, Debug)]
pub enum MenuAction {
    Open,
    Status,
    Start,
    Stop,
    OpenLogs,
    OpenData,
    Quit,
}

/// What the shell must do for a dispatched action.
#[derive(Clone, Copy, PartialEq, Eq, Structural, Debug)]
pub enum Effect {
    ShowMain,
    QueryStatus,
    StartService,
    StopService,
    OpenLogsFolder,
    OpenDataFolder,
    Exit,
}

/// The stable textual id of each menu entry.
pub open spec fn spec_menu_id(a: MenuAction) -> Seq<char> {
    match a {
        MenuAction::Open => "open"@,
        MenuAction::Status => "status"@,
        MenuAction::Start => "start"@,
        MenuAction::Stop => "stop"@,
        MenuAction::OpenLogs => "logs"@,
        MenuAction::OpenData => "data"@,
        MenuAction::Quit => "quit"@,
    }
}

/// The id under which an action's menu entry is registered.
pub fn menu_id(a: MenuAction) -> (r: &'static str)
    ensures
        r@ == spec_menu_id(a),
{
    match a {
        MenuAction::Open => "open",
        MenuAction::Status => "status",
        MenuAction::Start => "start",
        MenuAction::Stop => "stop",
        MenuAction::OpenLogs => "logs",
        MenuAction::OpenData => "data",
        MenuAction::Quit => "quit",
    }
}

/// The user-visible label of each menu entry.
pub open spec fn spec_menu_label(a: MenuAction) -> Seq<char> {
    match a {
        MenuAction::Open => "Open PLC Logger"@,
        MenuAction::Status => "Status"@,
        MenuAction::Start => "Start Agent Service"@,
        MenuAction::Stop => "Stop Agent Service"@,
        MenuAction::OpenLogs => "Open Logs Folder"@,
        MenuAction::OpenData => "Open Data Folder"@,
        MenuAction::Quit => "Quit"@,
    }
}

/// The label shown on an action's menu entry.
pub fn menu_label(a: MenuAction) -> (r: &'static str)
    ensures
        r@ == spec_menu_label(a),
{
    match a {
        MenuAction::Open => "Open PLC Logger",
        MenuAction::Status => "Status",
        MenuAction::Start => "Start Agent Service",
        MenuAction::Stop => "Stop Agent Service",
        MenuAction::OpenLogs => "Open Logs Folder",
        MenuAction::OpenData => "Open Data Folder",
        MenuAction::Quit => "Quit",
    }
}

/// Which action a clicked menu id names; an unknown id names none and is
/// ignored.
pub open spec fn spec_action_for_id(id: Seq<char>) -> Option<MenuAction> {
    if id == "open"@ {
        Option::Some(MenuAction::Open)
    } else if id == "status"@ {
        Option::Some(MenuAction::Status)
    } else if id == "start"@ {
        Option::Some(MenuAction::Start)
    } else if id == "stop"@ {
        Option::Some(MenuAction::Stop)
    } else if id == "logs"@ {
        Option::Some(MenuAction::OpenLogs)
    } else if id == "data"@ {
        Option::Some(MenuAction::OpenData)
    } else if id == "quit"@ {
        Option::Some(MenuAction::Quit)
    } else {
        Option::None
    }
}

/// Resolves a clicked menu id to its action.
pub fn action_for_id(id: &str) -> (r: Option<MenuAction>)
    ensures
        r == spec_action_for_id(id@),
{
    if str_eq(id, "open") {
        Some(MenuAction::Open)
    } else if str_eq(id, "status") {
        Some(MenuAction::Status)
    } else if str_eq(id, "start") {
        Some(MenuAction::Start)
    } else if str_eq(id, "stop") {
        Some(MenuAction::Stop)
    } else if str_eq(id, "logs") {
        Some(MenuAction::OpenLogs)
    } else if str_eq(id, "data") {
        Some(MenuAction::OpenData)
    } else if str_eq(id, "quit") {
        Some(MenuAction::Quit)
    } else {
        None
    }
}

/// The 1:1 dispatch from action to effect.
pub open spec fn spec_effect(a: MenuAction) -> Effect {
    match a {
        MenuAction::Open => Effect::ShowMain,
        MenuAction::Status => Effect::QueryStatus,
        MenuAction::Start => Effect::StartService,
        MenuAction::Stop => Effect::StopService,
        MenuAction::OpenLogs => Effect::OpenLogsFolder,
        MenuAction::OpenData => Effect::OpenDataFolder,
        MenuAction::Quit => Effect::Exit,
    }
}

/// Dispatches a menu action to the effect the shell must carry out.
pub fn effect_of(a: MenuAction) -> (r: Effect)
    ensures
        r == spec_effect(a),
{
    match a {
        MenuAction::Open => Effect::ShowMain,
        MenuAction::Status => Effect::QueryStatus,
        MenuAction::Start => Effect::StartService,
        MenuAction::Stop => Effect::StopService,
        MenuAction::OpenLogs => Effect::OpenLogsFolder,
        MenuAction::OpenData => Effect::OpenDataFolder,
        MenuAction::Quit => Effect::Exit,
    }
}

/// The menu's entries, in the order they are shown.
pub fn menu_actions() -> (r: Vec<MenuAction>)
    ensures
        r@ == seq![
            MenuAction::Open,
            MenuAction::Status,
            MenuAction::Start,
            MenuAction::Stop,
            MenuAction::OpenLogs,
            MenuAction::OpenData,
            MenuAction::Quit,
        ],
{
    let mut v: Vec<MenuAction> = Vec::new();
    v.push(MenuAction::Open);
    v.push(MenuAction::Status);
    v.push(MenuAction::Start);
    v.push(MenuAction::Stop);
    v.push(MenuAction::OpenLogs);
    v.push(MenuAction::OpenData);
    v.push(MenuAction::Quit);
    proof {
        assert(v@ =~= seq![
            MenuAction::Open,
            MenuAction::Status,
            MenuAction::Start,
            MenuAction::Stop,
            MenuAction::OpenLogs,
            MenuAction::OpenData,
            MenuAction::Quit,
        ]);
    }
    v
}

/// Law: the textual ids name the actions faithfully — resolving any
/// action's own id yields that action back, so the seven entries map 1:1
/// to their menu ids.
pub proof fn lemma_menu_ids_faithful(a: MenuAction)
    ensures
        spec_action_for_id(spec_menu_id(a)) == Some(a),
{
    reveal_strlit("open");
    reveal_strlit("status");
    reveal_strlit("start");
    reveal_strlit("stop");
    reveal_strlit("logs");
    reveal_strlit("data");
    reveal_strlit("quit");
    assert("open"@.len() == 4);
    assert("status"@.len() == 6);
    assert("start"@.len() == 5);
    assert("stop"@.len() == 4);
    assert("logs"@.len() == 4);
    assert("data"@.len() == 4);
    assert("quit"@.len() == 4);
    assert("open"@[0] == 'o');
    assert("stop"@[0] == 's');
    assert("logs"@[0] == 'l');
    assert("data"@[0] == 'd');
    assert("quit"@[0] == 'q');
    assert(!("stop"@ =~= "open"@));
    assert(!("logs"@ =~= "open"@));
    assert(!("logs"@ =~= "stop"@));
    assert(!("data"@ =~= "open"@));
    assert(!("data"@ =~= "stop"@));
    assert(!("data"@ =~= "logs"@));
    assert(!("quit"@ =~= "open"@));
    assert(!("quit"@ =~= "stop"@));
    assert(!("quit"@ =~= "logs"@));
    assert(!("quit"@ =~= "data"@));
}

/// Law: dispatch is 1:1 — no two distinct menu actions share an effect.
pub proof fn lemma_dispatch_one_to_one(a: MenuAction, b: MenuAction)
    requires
        spec_effect(a) == spec_effect(b),
    ensures
        a == b,
{
}

/// Law: "Quit" is the only menu action whose dispatch ends the process;
/// every other action's transition is a self-loop that leaves the tray
/// available.
pub proof fn lemma_only_quit_exits(a: MenuAction)
    ensures
        spec_effect(a) == Effect::Exit <==> a == MenuAction::Quit,
{
}

} // verus!
