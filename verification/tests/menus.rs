use lord::config::NamedCommand;
use lord::config::valid_tool_indices;
use lord::location::Location;
use lord::location::MenuAction;
use lord::location::StepResult;
use lord::location::action_pauses;
use lord::location::action_xp;
use lord::location::graveyard_step;
use lord::location::location_art;
use lord::location::location_step;
use lord::location::rejection_message;
use lord::location::room_step;
use lord::location::town_square_step;
use lord::menu::ChestStep;
use lord::menu::MenuInput;
use lord::menu::SheetStep;
use lord::menu::chest_selection;
use lord::menu::read_choice;
use lord::menu::sheet_selection;

#[test]
fn choice_takes_first_visible_character() {
    assert_eq!(read_choice(Some("g")), MenuInput::Key('g'));
    assert_eq!(read_choice(Some("G")), MenuInput::Key('g'));
    assert_eq!(read_choice(Some(" g")), MenuInput::Key('g'));
    assert_eq!(read_choice(Some("\t Quit")), MenuInput::Key('q'));
}

#[test]
fn blank_lines_differ_from_end_of_input() {
    assert_eq!(read_choice(None), MenuInput::EndOfInput);
    assert_eq!(read_choice(Some("")), MenuInput::Blank);
    assert_eq!(read_choice(Some("   ")), MenuInput::Blank);
}

#[test]
fn town_square_transitions() {
    assert_eq!(
        town_square_step(MenuInput::Key('g')),
        StepResult::Goto(Location::Graveyard)
    );
    assert_eq!(town_square_step(MenuInput::Key('r')), StepResult::Goto(Location::Room));
    assert_eq!(town_square_step(MenuInput::Key('x')), StepResult::ShowSheet);
    assert_eq!(town_square_step(MenuInput::Key('q')), StepResult::Quit);
    assert_eq!(town_square_step(MenuInput::EndOfInput), StepResult::Quit);
    assert_eq!(town_square_step(MenuInput::Key('z')), StepResult::Reject);
}

#[test]
fn blank_line_is_rejected_not_quit() {
    for location in [Location::TownSquare, Location::Graveyard, Location::Room] {
        assert_eq!(location_step(location, MenuInput::Blank), StepResult::Reject);
        assert_eq!(
            location_step(location, read_choice(Some("\n"))),
            StepResult::Reject
        );
    }
}

#[test]
fn town_square_accepts_spaced_and_upper_case_input() {
    assert_eq!(
        town_square_step(read_choice(Some(" g"))),
        StepResult::Goto(Location::Graveyard)
    );
    assert_eq!(
        town_square_step(read_choice(Some("G"))),
        StepResult::Goto(Location::Graveyard)
    );
    assert_eq!(town_square_step(read_choice(Some("z"))), StepResult::Reject);
}

#[test]
fn graveyard_transitions() {
    assert_eq!(
        graveyard_step(MenuInput::Key('s')),
        StepResult::Run(MenuAction::SearchTombs)
    );
    assert_eq!(
        graveyard_step(MenuInput::Key('t')),
        StepResult::Goto(Location::TownSquare)
    );
    assert_eq!(graveyard_step(MenuInput::Key('x')), StepResult::ShowSheet);
    assert_eq!(graveyard_step(MenuInput::Key('q')), StepResult::Quit);
    assert_eq!(graveyard_step(MenuInput::EndOfInput), StepResult::Quit);
    assert_eq!(graveyard_step(MenuInput::Key('g')), StepResult::Reject);
}

#[test]
fn room_transitions() {
    assert_eq!(room_step(MenuInput::Key('m')), StepResult::Run(MenuAction::CheckMail));
    assert_eq!(room_step(MenuInput::Key('c')), StepResult::Run(MenuAction::UseComputer));
    assert_eq!(room_step(MenuInput::Key('h')), StepResult::Run(MenuAction::OpenChest));
    assert_eq!(room_step(MenuInput::Key('o')), StepResult::Run(MenuAction::OpenCloset));
    assert_eq!(room_step(MenuInput::Key('e')), StepResult::Run(MenuAction::ExploreWorld));
    assert_eq!(room_step(MenuInput::Key('l')), StepResult::Run(MenuAction::LayDown));
    assert_eq!(room_step(MenuInput::Key('b')), StepResult::Run(MenuAction::Screensaver));
    assert_eq!(room_step(MenuInput::Key('t')), StepResult::Goto(Location::TownSquare));
    assert_eq!(room_step(MenuInput::Key('x')), StepResult::ShowSheet);
    assert_eq!(room_step(MenuInput::Key('q')), StepResult::Quit);
    assert_eq!(room_step(MenuInput::EndOfInput), StepResult::Quit);
    assert_eq!(room_step(MenuInput::Key('w')), StepResult::Reject);
}

#[test]
fn location_step_dispatches_by_location() {
    assert_eq!(
        location_step(Location::TownSquare, MenuInput::Key('g')),
        StepResult::Goto(Location::Graveyard)
    );
    assert_eq!(
        location_step(Location::Graveyard, MenuInput::Key('s')),
        StepResult::Run(MenuAction::SearchTombs)
    );
    assert_eq!(
        location_step(Location::Room, MenuInput::Key('b')),
        StepResult::Run(MenuAction::Screensaver)
    );
}

#[test]
fn every_prompt_quits_at_end_of_input() {
    for location in [Location::TownSquare, Location::Graveyard, Location::Room] {
        assert_eq!(location_step(location, MenuInput::EndOfInput), StepResult::Quit);
    }
    assert_eq!(chest_selection(3, None), ChestStep::Leave);
    assert_eq!(sheet_selection(3, None), SheetStep::Leave);
}

#[test]
fn xp_rewards_match_action_weights() {
    assert_eq!(action_xp(MenuAction::SearchTombs), 10);
    assert_eq!(action_xp(MenuAction::OpenChest), 10);
    assert_eq!(action_xp(MenuAction::Screensaver), 10);
    assert_eq!(action_xp(MenuAction::CheckMail), 5);
    assert_eq!(action_xp(MenuAction::UseComputer), 5);
    assert_eq!(action_xp(MenuAction::OpenCloset), 5);
    assert_eq!(action_xp(MenuAction::ExploreWorld), 5);
    assert_eq!(action_xp(MenuAction::LayDown), 5);
}

#[test]
fn only_handoff_actions_skip_the_pause() {
    assert!(!action_pauses(MenuAction::OpenChest));
    assert!(!action_pauses(MenuAction::Screensaver));
    assert!(action_pauses(MenuAction::SearchTombs));
    assert!(action_pauses(MenuAction::CheckMail));
    assert!(action_pauses(MenuAction::LayDown));
}

#[test]
fn art_and_rejections_are_location_specific() {
    assert!(location_art(Location::TownSquare).contains("Neon Agora"));
    assert!(location_art(Location::Graveyard).contains("Crypt of Lost Processes"));
    assert!(location_art(Location::Room).contains("Safehouse 7"));
    assert_eq!(rejection_message(Location::TownSquare), "That action is not available.");
    assert_eq!(
        rejection_message(Location::Graveyard),
        "Bones do not respond to that command."
    );
    assert_eq!(rejection_message(Location::Room), "The room remains silent.");
}

fn tool(name: &str, command: &[&str]) -> NamedCommand {
    NamedCommand {
        name: String::from(name),
        command: command.iter().map(|a| String::from(*a)).collect(),
    }
}

#[test]
fn chest_filters_invalid_tools() {
    let tools = vec![tool("", &["x"]), tool("Scanner", &["nmap"]), tool("Bad", &[])];
    let shown = valid_tool_indices(&tools);
    assert_eq!(shown, vec![1]);
}

#[test]
fn blank_tool_name_is_invalid() {
    assert!(!tool(" \t ", &["x"]).is_valid());
    assert!(tool("Scanner", &["nmap"]).is_valid());
}

#[test]
fn chest_selection_accepts_only_listed_numbers() {
    assert_eq!(chest_selection(1, Some("1")), ChestStep::Launch(0));
    assert_eq!(chest_selection(1, Some("2")), ChestStep::Reject);
    assert_eq!(chest_selection(1, Some("0")), ChestStep::Reject);
    assert_eq!(chest_selection(1, Some("-1")), ChestStep::Reject);
    assert_eq!(chest_selection(1, Some("abc")), ChestStep::Reject);
}

#[test]
fn chest_selection_quit_and_blank() {
    assert_eq!(chest_selection(2, Some("q")), ChestStep::Leave);
    assert_eq!(chest_selection(2, Some(" Q ")), ChestStep::Leave);
    assert_eq!(chest_selection(2, Some("")), ChestStep::Stay);
    assert_eq!(chest_selection(2, Some("  ")), ChestStep::Stay);
    assert_eq!(chest_selection(2, Some(" 2 ")), ChestStep::Launch(1));
}

#[test]
fn sheet_selection_leaves_on_blank_or_quit() {
    assert_eq!(sheet_selection(1, Some("")), SheetStep::Leave);
    assert_eq!(sheet_selection(1, Some("q")), SheetStep::Leave);
    assert_eq!(sheet_selection(1, Some("Q")), SheetStep::Leave);
    assert_eq!(sheet_selection(1, Some("1")), SheetStep::UsePocket(0));
    assert_eq!(sheet_selection(1, Some("2")), SheetStep::Reject);
    assert_eq!(sheet_selection(1, Some("pocket")), SheetStep::Reject);
}
