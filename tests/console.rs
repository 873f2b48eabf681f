use inferno_engineer::commands::{
    command_by_lowercase_name, execute_command, get_command_by_name, list_commands, runnable_commands, CommandsCommand,
    FireballCommand, GameCommand, HelpCommand, InvalidCommand, ManCommand,
};
use inferno_engineer::npcs::PlayerAction;
use inferno_engineer::state::{GameProgress, GameState};

const DENIED: &str = "You do not have access to run that command.\nThis incident will be reported.";

fn state_at(level: i32, in_battle: bool) -> GameState {
    let mut gs = GameState::default();
    gs.player_level = level;
    gs.in_battle = in_battle;
    gs
}

fn ok(s: &str) -> Result<String, String> {
    Ok(s.to_string())
}

fn err(s: &str) -> Result<String, String> {
    Err(s.to_string())
}

#[test]
fn list_all_at_level_zero() {
    assert_eq!(list_commands("", 0), vec!["commands", "help", "man"]);
}

#[test]
fn list_all_at_level_two() {
    assert_eq!(list_commands("", 2), vec!["commands", "help", "man", "fireball"]);
}

#[test]
fn list_by_prefix() {
    assert_eq!(list_commands("h", 0), vec!["help"]);
    assert_eq!(list_commands("m", 5), vec!["man"]);
    assert_eq!(list_commands("fire", 1), Vec::<&str>::new());
    assert_eq!(list_commands("fire", 2), vec!["fireball"]);
    assert_eq!(list_commands("x", 10), Vec::<&str>::new());
    assert_eq!(list_commands("commandsx", 10), Vec::<&str>::new());
}

#[test]
fn list_is_case_sensitive() {
    assert_eq!(list_commands("H", 0), Vec::<&str>::new());
}

#[test]
fn list_at_lowest_level() {
    assert_eq!(list_commands("", i32::MIN), vec!["commands", "help", "man"]);
}

#[test]
fn runnable_commands_in_order() {
    assert_eq!(
        runnable_commands("", 3),
        vec![GameCommand::Commands, GameCommand::Help, GameCommand::Man, GameCommand::Fireball]
    );
}

#[test]
fn resolve_ignores_case_and_spaces() {
    assert_eq!(get_command_by_name(" FireBall "), Some(GameCommand::Fireball));
    assert_eq!(get_command_by_name("HELP"), Some(GameCommand::Help));
    assert_eq!(get_command_by_name("manual"), Some(GameCommand::Man));
    assert_eq!(get_command_by_name("Man"), Some(GameCommand::Man));
    assert_eq!(get_command_by_name("commands"), Some(GameCommand::Commands));
    assert_eq!(get_command_by_name("dance"), None);
    assert_eq!(get_command_by_name(""), None);
}

#[test]
fn help_fireball_without_access() {
    let mut gs = state_at(0, false);
    assert_eq!(
        execute_command(&mut gs, "help fireball"),
        err("You don't have access to that command")
    );
}

#[test]
fn help_fireball_with_access() {
    let mut gs = state_at(2, false);
    assert_eq!(execute_command(&mut gs, "help fireball"), ok("fireball [damage]"));
}

#[test]
fn help_unknown_command() {
    let mut gs = state_at(0, false);
    assert_eq!(execute_command(&mut gs, "help dance"), err("No such command: dance"));
}

#[test]
fn help_without_argument() {
    let mut gs = state_at(0, false);
    assert_eq!(execute_command(&mut gs, "help"), err("Usage: help <command_name>"));
}

#[test]
fn help_resolves_mixed_case() {
    let mut gs = state_at(0, false);
    assert_eq!(execute_command(&mut gs, "  HELP   Man "), ok("man <command_name>"));
}

#[test]
fn man_shows_manual() {
    let mut gs = state_at(0, false);
    let page = execute_command(&mut gs, "man commands").unwrap();
    assert!(page.starts_with("commands - Show available commands\n"));
    assert_eq!(page, GameCommand::Commands.man_page());
}

#[test]
fn manual_alias() {
    let mut gs = state_at(0, false);
    assert_eq!(execute_command(&mut gs, "manual help").unwrap(), HelpCommand.man_page());
}

#[test]
fn man_without_access() {
    let mut gs = state_at(1, false);
    assert_eq!(
        execute_command(&mut gs, "man fireball"),
        err("You don't have access to that command")
    );
}

#[test]
fn man_without_argument() {
    let mut gs = state_at(0, false);
    assert_eq!(execute_command(&mut gs, "man"), err("Usage: man <command_name>"));
}

#[test]
fn man_unknown_command() {
    let mut gs = state_at(0, false);
    assert_eq!(execute_command(&mut gs, "manual fly"), err("No such command: fly"));
}

#[test]
fn commands_lists_names() {
    let mut gs = state_at(0, false);
    assert_eq!(execute_command(&mut gs, "commands"), ok("commands help man"));
    gs.player_level = 2;
    assert_eq!(execute_command(&mut gs, "commands"), ok("commands help man fireball"));
}

#[test]
fn commands_verbose_lists_synopses() {
    let mut gs = state_at(0, false);
    assert_eq!(
        execute_command(&mut gs, "commands -v"),
        ok("commands [-v]\nhelp <command_name>\nman <command_name>")
    );
}

#[test]
fn fireball_not_in_battle() {
    let mut gs = state_at(2, false);
    assert_eq!(execute_command(&mut gs, "fireball"), err("Not in battle"));
    assert!(gs.action_queue.is_empty());
}

#[test]
fn fireball_ten_in_battle() {
    let mut gs = state_at(2, true);
    gs.player_atk = 10;
    assert_eq!(execute_command(&mut gs, "fireball 10"), ok("Dealt 10 damage"));
    assert_eq!(gs.action_queue, vec![PlayerAction::Attack(10)]);
}

#[test]
fn fireball_defaults_to_attack() {
    let mut gs = state_at(2, true);
    assert_eq!(execute_command(&mut gs, "fireball"), ok("Dealt 5 damage"));
    assert_eq!(gs.action_queue, vec![PlayerAction::Attack(5)]);
}

#[test]
fn fireball_negative_damage() {
    let mut gs = state_at(2, true);
    assert_eq!(
        execute_command(&mut gs, "fireball -5"),
        err("Damage should be positive and not larger than your ATK")
    );
    assert_eq!(
        execute_command(&mut gs, "fireball 0"),
        err("Damage should be positive and not larger than your ATK")
    );
    assert!(gs.action_queue.is_empty());
}

#[test]
fn fireball_not_a_number() {
    let mut gs = state_at(2, true);
    assert_eq!(execute_command(&mut gs, "fireball abc"), err("`abc' is not a valid number"));
    assert_eq!(
        execute_command(&mut gs, "fireball 99999999999"),
        err("`99999999999' is not a valid number")
    );
    assert_eq!(execute_command(&mut gs, "fireball 1.5"), err("`1.5' is not a valid number"));
    assert!(gs.action_queue.is_empty());
}

#[test]
fn fireball_argument_checked_before_battle() {
    let mut gs = state_at(2, false);
    assert_eq!(execute_command(&mut gs, "fireball x"), err("`x' is not a valid number"));
}

#[test]
fn fireball_plus_sign_and_largest() {
    let mut gs = state_at(2, true);
    assert_eq!(execute_command(&mut gs, "fireball +7"), ok("Dealt 7 damage"));
    assert_eq!(execute_command(&mut gs, "fireball 2147483647"), ok("Dealt 2147483647 damage"));
    assert_eq!(
        gs.action_queue,
        vec![PlayerAction::Attack(7), PlayerAction::Attack(2147483647)]
    );
}

#[test]
fn fireball_access_denied() {
    let mut gs = state_at(1, true);
    assert_eq!(execute_command(&mut gs, "fireball 10"), err(DENIED));
    assert!(gs.action_queue.is_empty());
    assert_eq!(gs.player_level, 1);
    assert!(gs.in_battle);
}

#[test]
fn denied_for_lowest_level() {
    let mut gs = state_at(i32::MIN, true);
    assert_eq!(execute_command(&mut gs, "FIREBALL"), err(DENIED));
}

#[test]
fn invalid_command_named() {
    let mut gs = state_at(0, false);
    assert_eq!(execute_command(&mut gs, "dance"), err("Invalid command: dance"));
    assert_eq!(execute_command(&mut gs, "  DANCE  now "), err("Invalid command: DANCE"));
}

#[test]
fn invalid_command_at_lowest_level() {
    let mut gs = state_at(i32::MIN, false);
    assert_eq!(execute_command(&mut gs, "fly away"), err("Invalid command: fly"));
}

#[test]
fn blank_line_is_invalid() {
    let mut gs = state_at(0, false);
    assert_eq!(execute_command(&mut gs, ""), err("Invalid command: "));
    assert_eq!(execute_command(&mut gs, " \t\u{3000} "), err("Invalid command: "));
}

#[test]
fn unicode_whitespace_splits_words() {
    let mut gs = state_at(0, false);
    assert_eq!(execute_command(&mut gs, "help\u{2003}man"), ok("man <command_name>"));
}

#[test]
fn sentinel_and_structs() {
    let mut gs = state_at(0, false);
    assert_eq!(InvalidCommand.required_level(), i32::MIN);
    assert_eq!(InvalidCommand.execute(&mut gs, &["xyz", "1"]), err("Invalid command: xyz"));
    assert_eq!(InvalidCommand.execute(&mut gs, &[]), err("Invalid command: "));
    assert_eq!(FireballCommand.required_level(), 2);
    assert_eq!(CommandsCommand.synopsis(), "commands [-v]");
    assert_eq!(ManCommand.synopsis(), "man <command_name>");
    assert_eq!(
        CommandsCommand.execute(&mut gs, &["commands", "x", "-v"]),
        ok("commands [-v]\nhelp <command_name>\nman <command_name>")
    );
    assert_eq!(GameCommand::Fireball.required_level(), 2);
    assert_eq!(GameCommand::Help.name(), "help");
}

#[test]
fn state_starts_in_intro() {
    let gs = GameState::default();
    assert_eq!(gs.game_progress, GameProgress::Intro);
    assert_eq!(gs.player_level, 0);
    assert!(!gs.in_battle);
}

#[test]
fn player_details_text() {
    let mut gs = GameState::default();
    assert_eq!(gs.player_details(), "Your access level: 0\nHP: 20 / 20\nATK: 5\nDEF: 2");
    gs.player_level = -3;
    gs.player_hitpoints = -12;
    gs.player_def = i32::MIN;
    assert_eq!(
        gs.player_details(),
        "Your access level: -3\nHP: -12 / 20\nATK: 5\nDEF: -2147483648"
    );
}

#[test]
fn lookup_of_lowercased_names() {
    assert_eq!(command_by_lowercase_name("manual"), Some(GameCommand::Man));
    assert_eq!(command_by_lowercase_name("fireball"), Some(GameCommand::Fireball));
    assert_eq!(command_by_lowercase_name("FIREBALL"), None);
    assert_eq!(command_by_lowercase_name(" help"), None);
}
