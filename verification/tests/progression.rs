use lord::character::Character;
use lord::character::PocketItem;
use lord::config::ActionsConfig;
use lord::config::CharacterConfig;
use lord::config::Config;
use lord::game::Game;
use lord::game::RewardNote;
use lord::location::Location;

fn bare_character(level: u32, xp: u32) -> Character {
    Character {
        name: String::from("Tester"),
        level,
        xp,
        clothing: Vec::new(),
        pockets: Vec::new(),
    }
}

fn empty_config() -> Config {
    Config {
        actions: ActionsConfig {
            search_tombs: None,
            check_mail: None,
            activate_screensaver: None,
            computer_terminal: None,
            lay_down: None,
            chest_tools: Vec::new(),
            closet_launcher: None,
            explore_world: None,
            grin_wallet: None,
        },
        character: CharacterConfig { clothing: Vec::new() },
    }
}

#[test]
fn threshold_formula() {
    assert_eq!(bare_character(1, 0).experience_to_next_level(), 25);
    assert_eq!(bare_character(2, 0).experience_to_next_level(), 35);
    assert_eq!(bare_character(5, 0).experience_to_next_level(), 65);
    assert_eq!(bare_character(10, 0).experience_to_next_level(), 115);
}

#[test]
fn zero_grant_changes_nothing() {
    let mut c = bare_character(3, 17);
    let leveled = c.gain_xp(0);
    assert_eq!(leveled, None);
    assert_eq!(c.level, 3);
    assert_eq!(c.xp, 17);
}

#[test]
fn small_grant_accumulates() {
    let mut c = bare_character(1, 0);
    let leveled = c.gain_xp(5);
    assert_eq!(leveled, None);
    assert_eq!(c.level, 1);
    assert_eq!(c.xp, 5);
}

#[test]
fn exact_threshold_levels_up() {
    let mut c = bare_character(1, 0);
    let leveled = c.gain_xp(25);
    assert_eq!(leveled, Some(2));
    assert_eq!(c.level, 2);
    assert_eq!(c.xp, 0);
}

#[test]
fn carry_over_keeps_remainder() {
    let mut c = bare_character(1, 20);
    let leveled = c.gain_xp(10);
    assert_eq!(leveled, Some(2));
    assert_eq!(c.level, 2);
    assert_eq!(c.xp, 5);
}

#[test]
fn one_grant_can_cross_several_thresholds() {
    let mut c = bare_character(1, 24);
    let leveled = c.gain_xp(100);
    // 124 total: 25 to level 2, 35 to level 3, 45 to level 4, 19 left.
    assert_eq!(leveled, Some(4));
    assert_eq!(c.level, 4);
    assert_eq!(c.xp, 19);
}

#[test]
fn grant_up_to_the_representable_limit_is_accepted() {
    let mut c = bare_character(1, 0);
    let leveled = c.gain_xp(u32::MAX);
    assert!(c.xp < c.experience_to_next_level());
    let mut consumed: u64 = 0;
    for level in 1..c.level {
        consumed += 25 + 10 * (level as u64 - 1);
    }
    assert_eq!(consumed + c.xp as u64, u32::MAX as u64);
    assert_eq!(leveled, Some(c.level));
}

#[test]
fn replaying_grants_is_deterministic() {
    let grants = [5, 10, 10, 5, 25, 10, 10, 10];
    let mut a = bare_character(1, 0);
    let mut b = bare_character(1, 0);
    for g in grants {
        a.gain_xp(g);
    }
    for g in grants {
        b.gain_xp(g);
    }
    assert_eq!(a.level, b.level);
    assert_eq!(a.xp, b.xp);
}

#[test]
fn invariant_holds_after_every_grant() {
    let mut c = bare_character(1, 0);
    for g in [5, 10, 25, 10, 10, 5, 5, 10, 25, 10] {
        c.gain_xp(g);
        assert!(c.xp < c.experience_to_next_level());
    }
}

#[test]
fn reward_zero_is_silent() {
    let mut g = Game::new(empty_config(), String::from("Tester"));
    let before_level = g.character.level;
    let before_xp = g.character.xp;
    let note = g.reward_xp(0);
    assert_eq!(note, RewardNote::Silent);
    assert_eq!(g.character.level, before_level);
    assert_eq!(g.character.xp, before_xp);
}

#[test]
fn reward_reports_progress() {
    let mut g = Game::new(empty_config(), String::from("Tester"));
    let note = g.reward_xp(5);
    assert_eq!(note, RewardNote::Progress { amount: 5, xp: 5, threshold: 25 });
}

#[test]
fn reward_reports_level_up() {
    let mut g = Game::new(empty_config(), String::from("Tester"));
    g.character.xp = 20;
    let note = g.reward_xp(10);
    assert_eq!(note, RewardNote::LevelUp(2));
    assert_eq!(g.character.xp, 5);
}

#[test]
fn new_game_starts_in_town_square() {
    let g = Game::new(empty_config(), String::from("Tester"));
    assert_eq!(g.location, Location::TownSquare);
    assert_eq!(g.character.level, 1);
    assert_eq!(g.character.xp, 0);
    assert_eq!(g.character.name, "Tester");
}

#[test]
fn new_character_wears_defaults_when_unconfigured() {
    let c = Character::new(&empty_config(), String::from("Tester"));
    assert_eq!(
        c.clothing,
        vec![
            String::from("Aurora-weave jacket"),
            String::from("Carbon-thread boots"),
            String::from("Holographic lapel pin"),
        ]
    );
}

#[test]
fn new_character_wears_configured_clothing() {
    let mut config = empty_config();
    config.character.clothing = vec![String::from("Raincoat")];
    let c = Character::new(&config, String::from("Tester"));
    assert_eq!(c.clothing, vec![String::from("Raincoat")]);
}

#[test]
fn new_character_has_default_wallet_pocket() {
    let c = Character::new(&empty_config(), String::from("Tester"));
    assert_eq!(c.pockets.len(), 1);
    assert_eq!(c.pockets[0].name, "Grin Wallet");
    assert_eq!(c.pockets[0].description, "Shielded grin-wallet client");
    assert_eq!(c.pockets[0].command, Some(vec![String::from("grin-wallet")]));
}

#[test]
fn new_character_uses_configured_wallet_command() {
    let mut config = empty_config();
    config.actions.grin_wallet = Some(vec![String::from("wallet"), String::from("--listen")]);
    let c = Character::new(&config, String::from("Tester"));
    assert_eq!(
        c.pockets[0].command,
        Some(vec![String::from("wallet"), String::from("--listen")])
    );
}

#[test]
fn empty_wallet_command_falls_back_to_default() {
    let item = PocketItem::grin_wallet(None);
    assert_eq!(item.command, Some(vec![String::from("grin-wallet")]));
}
