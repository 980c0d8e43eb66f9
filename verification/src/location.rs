//! The location state machine: three locations, each with a menu whose
//! choices either transition to another location, quit, run an action in
//! place, or are rejected. Transitions are the sole driver of which menu is
//! shown next.

use vstd::prelude::*;
use crate::menu::MenuInput;

verus! {

/// Banner art for the town square menu.
pub const TOWN_SQUARE_ART: &'static str = r#"
╔════════════════════════════════════════════════════════════╗
║                             △ Neon Agora △                 ║
║  ╱╲ ╱╲ ╱╲    Plasma lanterns flicker above chrome cobbles  ║
║  ╲╱ ╲╱ ╲╱    Couriers barter packets, drones hum overhead  ║
╚════════════════════════════════════════════════════════════╝
"#;

/// Banner art for the graveyard menu.
pub const GRAVEYARD_ART: &'static str = r#"
╔════════════════════════════════════════════════════════════╗
║                     ☠ Crypt of Lost Processes ☠            ║
║  ┌─┐ ┌─┐ ┌─┐   Tomb relays glow with cold teal sigils      ║
║  └─┘ └─┘ └─┘   Binary incense drifts between obelisks      ║
╚════════════════════════════════════════════════════════════╝
"#;

/// Banner art for the room menu.
pub const ROOM_ART: &'static str = r#"
╔════════════════════════════════════════════════════════════╗
║                      ◎ Safehouse 7 ◎                       ║
║  Neon vines crawl along carbon walls. A chest hums softly, ║
║  the closet door hides a dozen launchers, and the window   ║
║  overlooks a rain-soaked skyline.                          ║
╚════════════════════════════════════════════════════════════╝
"#;

/// The three top-level menu contexts.
#[derive(Clone, Copy, Debug, PartialEq, Eq, Structural)]
pub enum Location {
    TownSquare,
    Graveyard,
    Room,
}

/// An action a menu choice can run without leaving the current location.
#[derive(Clone, Copy, Debug, PartialEq, Eq, Structural)]
pub enum MenuAction {
    SearchTombs,
    CheckMail,
    UseComputer,
    OpenChest,
    OpenCloset,
    ExploreWorld,
    LayDown,
    Screensaver,
}

/// What one menu choice decides: leave for another location, stop the
/// program, run an action in place, show the character sheet, or reject
/// the input and re-prompt.
#[derive(Clone, Copy, Debug, PartialEq, Eq, Structural)]
pub enum StepResult {
    Goto(Location),
    Quit,
    Run(MenuAction),
    ShowSheet,
    Reject,
}

/// The town square menu: `g` and `r` transition, `x` shows the sheet,
/// `q` and end-of-input quit, and anything else — a blank line
/// included — is rejected.
pub open spec fn town_square_step_spec(input: MenuInput) -> StepResult {
    match input {
        MenuInput::EndOfInput => StepResult::Quit,
        MenuInput::Blank => StepResult::Reject,
        MenuInput::Key(c) => if c == 'g' {
            StepResult::Goto(Location::Graveyard)
        } else if c == 'r' {
            StepResult::Goto(Location::Room)
        } else if c == 'x' {
            StepResult::ShowSheet
        } else if c == 'q' {
            StepResult::Quit
        } else {
            StepResult::Reject
        },
    }
}

/// Decide one town square menu choice.
pub fn town_square_step(input: MenuInput) -> (r: StepResult)
    ensures
        r == town_square_step_spec(input),
{
    match input {
        MenuInput::EndOfInput => StepResult::Quit,
        MenuInput::Blank => StepResult::Reject,
        MenuInput::Key(c) => {
            if c == 'g' {
                StepResult::Goto(Location::Graveyard)
            } else if c == 'r' {
                StepResult::Goto(Location::Room)
            } else if c == 'x' {
                StepResult::ShowSheet
            } else if c == 'q' {
                StepResult::Quit
            } else {
                StepResult::Reject
            }
        },
    }
}

/// The graveyard menu: `s` searches the tombs, `t` returns to the town
/// square, `x` shows the sheet, `q` and end-of-input quit, and anything
/// else is rejected.
pub open spec fn graveyard_step_spec(input: MenuInput) -> StepResult {
    match input {
        MenuInput::EndOfInput => StepResult::Quit,
        MenuInput::Blank => StepResult::Reject,
        MenuInput::Key(c) => if c == 's' {
            StepResult::Run(MenuAction::SearchTombs)
        } else if c == 't' {
            StepResult::Goto(Location::TownSquare)
        } else if c == 'x' {
            StepResult::ShowSheet
        } else if c == 'q' {
            StepResult::Quit
        } else {
            StepResult::Reject
        },
    }
}

/// Decide one graveyard menu choice.
pub fn graveyard_step(input: MenuInput) -> (r: StepResult)
    ensures
        r == graveyard_step_spec(input),
{
    match input {
        MenuInput::EndOfInput => StepResult::Quit,
        MenuInput::Blank => StepResult::Reject,
        MenuInput::Key(c) => {
            if c == 's' {
                StepResult::Run(MenuAction::SearchTombs)
            } else if c == 't' {
                StepResult::Goto(Location::TownSquare)
            } else if c == 'x' {
                StepResult::ShowSheet
            } else if c == 'q' {
                StepResult::Quit
            } else {
                StepResult::Reject
            }
        },
    }
}

/// The room menu: seven in-place actions, `t` back to the town square,
/// `x` shows the sheet, `q` and end-of-input quit, and anything else is
/// rejected.
pub open spec fn room_step_spec(input: MenuInput) -> StepResult {
    match input {
        MenuInput::EndOfInput => StepResult::Quit,
        MenuInput::Blank => StepResult::Reject,
        MenuInput::Key(c) => if c == 'm' {
            StepResult::Run(MenuAction::CheckMail)
        } else if c == 'c' {
            StepResult::Run(MenuAction::UseComputer)
        } else if c == 'h' {
            StepResult::Run(MenuAction::OpenChest)
        } else if c == 'o' {
            StepResult::Run(MenuAction::OpenCloset)
        } else if c == 'e' {
            StepResult::Run(MenuAction::ExploreWorld)
        } else if c == 'l' {
            StepResult::Run(MenuAction::LayDown)
        } else if c == 'b' {
            StepResult::Run(MenuAction::Screensaver)
        } else if c == 't' {
            StepResult::Goto(Location::TownSquare)
        } else if c == 'x' {
            StepResult::ShowSheet
        } else if c == 'q' {
            StepResult::Quit
        } else {
            StepResult::Reject
        },
    }
}

/// Decide one room menu choice.
pub fn room_step(input: MenuInput) -> (r: StepResult)
    ensures
        r == room_step_spec(input),
{
    match input {
        MenuInput::EndOfInput => StepResult::Quit,
        MenuInput::Blank => StepResult::Reject,
        MenuInput::Key(c) => {
            if c == 'm' {
                StepResult::Run(MenuAction::CheckMail)
            } else if c == 'c' {
                StepResult::Run(MenuAction::UseComputer)
            } else if c == 'h' {
                StepResult::Run(MenuAction::OpenChest)
            } else if c == 'o' {
                StepResult::Run(MenuAction::OpenCloset)
            } else if c == 'e' {
                StepResult::Run(MenuAction::ExploreWorld)
            } else if c == 'l' {
                StepResult::Run(MenuAction::LayDown)
            } else if c == 'b' {
                StepResult::Run(MenuAction::Screensaver)
            } else if c == 't' {
                StepResult::Goto(Location::TownSquare)
            } else if c == 'x' {
                StepResult::ShowSheet
            } else if c == 'q' {
                StepResult::Quit
            } else {
                StepResult::Reject
            }
        },
    }
}

/// Decide one menu choice of the given location.
pub fn location_step(location: Location, input: MenuInput) -> (r: StepResult)
    ensures
        location == Location::TownSquare ==> r == town_square_step_spec(input),
        location == Location::Graveyard ==> r == graveyard_step_spec(input),
        location == Location::Room ==> r == room_step_spec(input),
{
    match location {
        Location::TownSquare => town_square_step(input),
        Location::Graveyard => graveyard_step(input),
        Location::Room => room_step(input),
    }
}

/// The banner art of a location's menu.
pub fn location_art(location: Location) -> (r: &'static str)
    ensures
        location == Location::TownSquare ==> r@ == TOWN_SQUARE_ART@,
        location == Location::Graveyard ==> r@ == GRAVEYARD_ART@,
        location == Location::Room ==> r@ == ROOM_ART@,
{
    match location {
        Location::TownSquare => TOWN_SQUARE_ART,
        Location::Graveyard => GRAVEYARD_ART,
        Location::Room => ROOM_ART,
    }
}

/// The rejection message a location prints for unrecognized input.
pub fn rejection_message(location: Location) -> (r: &'static str)
    ensures
        location == Location::TownSquare ==> r@ == "That action is not available."@,
        location == Location::Graveyard ==> r@ == "Bones do not respond to that command."@,
        location == Location::Room ==> r@ == "The room remains silent."@,
{
    match location {
        Location::TownSquare => "That action is not available.",
        Location::Graveyard => "Bones do not respond to that command.",
        Location::Room => "The room remains silent.",
    }
}

/// The experience reward an in-place action grants: searching the tombs,
/// opening the chest and the screensaver grant the medium reward, every
/// other action the small one.
pub fn action_xp(action: MenuAction) -> (xp: u32)
    ensures
        (action == MenuAction::SearchTombs || action == MenuAction::OpenChest
            || action == MenuAction::Screensaver) ==> xp == 10,
        !(action == MenuAction::SearchTombs || action == MenuAction::OpenChest
            || action == MenuAction::Screensaver) ==> xp == 5,
{
    match action {
        MenuAction::SearchTombs => 10,
        MenuAction::OpenChest => 10,
        MenuAction::Screensaver => 10,
        MenuAction::CheckMail => 5,
        MenuAction::UseComputer => 5,
        MenuAction::OpenCloset => 5,
        MenuAction::ExploreWorld => 5,
        MenuAction::LayDown => 5,
    }
}

/// Whether the menu waits for ENTER after the action: the chest submenu
/// and the screensaver pace themselves, every other action pauses so its
/// output is not overwritten by the redraw.
pub fn action_pauses(action: MenuAction) -> (r: bool)
    ensures
        r == !(action == MenuAction::OpenChest || action == MenuAction::Screensaver),
{
    match action {
        MenuAction::OpenChest => false,
        MenuAction::Screensaver => false,
        _ => true,
    }
}

} // verus!
