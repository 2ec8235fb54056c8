//! Menu identifiers, the actions they stand for, and what a click does.
use vstd::prelude::*;

verus! {

/// What a menu click asks for. Every identifier maps to exactly one action;
/// one that the menu never produced maps to `NoAction`.
#[derive(Clone, Copy, Debug, PartialEq, Eq, Structural)]
pub enum MenuAction {
    Quit,
    RefreshSignal,
    ToggleLogsSignal,
    NoAction,
}

/// A signal sent to the front end on the menu channel.
#[derive(Clone, Copy, Debug, PartialEq, Eq, Structural)]
pub enum MenuSignal {
    Refresh,
    ToggleLogs,
}

/// What the host must do for one click: end the process with a code, emit
/// one signal, or nothing at all.
#[derive(Clone, Copy, Debug, PartialEq, Eq, Structural)]
pub enum MenuEffect {
    Exit(i32),
    Emit(MenuSignal),
    Ignore,
}

/// The channel on which menu signals travel.
pub fn menu_channel() -> (r: &'static str)
    ensures
        r@ == "menu-event"@,
{
    "menu-event"
}

/// Identifier of the menu item for `a`, as a sequence of characters.
pub open spec fn id_of(a: MenuAction) -> Seq<char> {
    match a {
        MenuAction::Quit => "quit"@,
        MenuAction::RefreshSignal => "refresh"@,
        MenuAction::ToggleLogsSignal => "toggle_logs"@,
        MenuAction::NoAction => Seq::empty(),
    }
}

/// The action that the identifier `id` stands for.
pub open spec fn action_of(id: Seq<char>) -> MenuAction {
    if id == "quit"@ {
        MenuAction::Quit
    } else if id == "refresh"@ {
        MenuAction::RefreshSignal
    } else if id == "toggle_logs"@ {
        MenuAction::ToggleLogsSignal
    } else {
        MenuAction::NoAction
    }
}

/// The effect that action `a` calls for.
pub open spec fn effect_of(a: MenuAction) -> MenuEffect {
    match a {
        MenuAction::Quit => MenuEffect::Exit(0),
        MenuAction::RefreshSignal => MenuEffect::Emit(MenuSignal::Refresh),
        MenuAction::ToggleLogsSignal => MenuEffect::Emit(MenuSignal::ToggleLogs),
        MenuAction::NoAction => MenuEffect::Ignore,
    }
}

/// Payload that a signal carries on the menu channel.
pub open spec fn payload_of(s: MenuSignal) -> Seq<char> {
    match s {
        MenuSignal::Refresh => "refresh"@,
        MenuSignal::ToggleLogs => "toggle_logs"@,
    }
}

/// Character-by-character equality of two strings.
fn same_text(a: &str, b: &str) -> (r: bool)
    ensures
        r == (a@ == b@),
{
    let n = a.unicode_len();
    if n != b.unicode_len() {
        return false;
    }
    let mut i: usize = 0;
    while i < n
        invariant
            n == a@.len(),
            n == b@.len(),
            i <= n,
            forall|j: int| 0 <= j < i ==> a@[j] == b@[j],
        decreases n - i,
    {
        if a.get_char(i) != b.get_char(i) {
            return false;
        }
        i = i + 1;
    }
    assert(a@ =~= b@);
    true
}

impl MenuAction {
    /// The action for a menu identifier; unknown identifiers give `NoAction`.
    pub fn from_id(id: &str) -> (r: MenuAction)
        ensures
            r == action_of(id@),
    {
        if same_text(id, "quit") {
            MenuAction::Quit
        } else if same_text(id, "refresh") {
            MenuAction::RefreshSignal
        } else if same_text(id, "toggle_logs") {
            MenuAction::ToggleLogsSignal
        } else {
            MenuAction::NoAction
        }
    }

    /// The identifier that the menu item for this action carries.
    pub fn id(self) -> (r: &'static str)
        requires
            self != MenuAction::NoAction,
        ensures
            r@ == id_of(self),
    {
        match self {
            MenuAction::Quit => "quit",
            MenuAction::RefreshSignal => "refresh",
            MenuAction::ToggleLogsSignal => "toggle_logs",
            MenuAction::NoAction => "",
        }
    }

    /// What the host must do for this action.
    pub fn effect(self) -> (r: MenuEffect)
        ensures
            r == effect_of(self),
    {
        match self {
            MenuAction::Quit => MenuEffect::Exit(0),
            MenuAction::RefreshSignal => MenuEffect::Emit(MenuSignal::Refresh),
            MenuAction::ToggleLogsSignal => MenuEffect::Emit(MenuSignal::ToggleLogs),
            MenuAction::NoAction => MenuEffect::Ignore,
        }
    }
}

impl MenuSignal {
    /// The payload sent on the menu channel for this signal.
    pub fn payload(self) -> (r: &'static str)
        ensures
            r@ == payload_of(self),
    {
        match self {
            MenuSignal::Refresh => "refresh",
            MenuSignal::ToggleLogs => "toggle_logs",
        }
    }
}

/// Decides what a click on the menu item `event_id` does. Never fails:
/// an unknown identifier is ignored.
pub fn handle_event(event_id: &str) -> (r: MenuEffect)
    ensures
        r == effect_of(action_of(event_id@)),
{
    MenuAction::from_id(event_id).effect()
}

/// The three identifiers are pairwise distinct.
pub proof fn lemma_ids_distinct()
    ensures
        "quit"@ != "refresh"@,
        "quit"@ != "toggle_logs"@,
        "refresh"@ != "toggle_logs"@,
{
    reveal_strlit("quit");
    reveal_strlit("refresh");
    reveal_strlit("toggle_logs");
    assert("quit"@[0] != "refresh"@[0]);
    assert("quit"@[0] != "toggle_logs"@[0]);
    assert("refresh"@[0] != "toggle_logs"@[0]);
}

/// The identifier given to a menu item is read back as that item's action.
pub proof fn lemma_id_round_trip(a: MenuAction)
    requires
        a != MenuAction::NoAction,
    ensures
        action_of(id_of(a)) == a,
{
    lemma_ids_distinct();
}

/// Every click yields a single effect: `"quit"` ends the process with code
/// 0, `"refresh"` and `"toggle_logs"` each emit their own signal and no
/// other, and any other identifier emits nothing.
pub proof fn lemma_dispatch_table(id: Seq<char>)
    ensures
        id == "quit"@ ==> effect_of(action_of(id)) == MenuEffect::Exit(0),
        id == "refresh"@ ==> effect_of(action_of(id)) == MenuEffect::Emit(MenuSignal::Refresh),
        id == "toggle_logs"@ ==> effect_of(action_of(id)) == MenuEffect::Emit(
            MenuSignal::ToggleLogs,
        ),
        id != "quit"@ && id != "refresh"@ && id != "toggle_logs"@ ==> effect_of(action_of(id))
            == MenuEffect::Ignore,
        effect_of(action_of(id)) matches MenuEffect::Emit(s) ==> payload_of(s) == id,
{
    lemma_ids_distinct();
}

} // verus!
