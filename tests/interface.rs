use inferno_engineer::cutscene::{Cg, CgFrame};
use inferno_engineer::map::{build_tiles, Tile, TileMap};
use inferno_engineer::npcs::{NpcResponse, PlayerAction};
use inferno_engineer::state::{GameProgress, GameState};
use inferno_engineer::ui::{command_hint, windows_for, CommandHint, InfoTab, UiState};

fn completions(input: &str, level: i32) -> Vec<&'static str> {
    match command_hint(input, level) {
        CommandHint::Completions(v) => v,
        CommandHint::Synopsis(s) => panic!("synopsis {}", s),
    }
}

#[test]
fn log_starts_with_banner() {
    let ui = UiState::default();
    assert_eq!(
        ui.get_log_string(),
        "The Inferno Interactive Console v666\nType `commands` for a list of commands or try `help <command>`."
    );
    assert_eq!(ui.selected_tab, InfoTab::Dialogue);
    assert!(!ui.is_terminal_open);
}

#[test]
fn log_keeps_last_lines() {
    let mut ui = UiState::default();
    for i in 0..300 {
        ui.log_message(format!("line {}", i));
    }
    assert_eq!(ui.terminal_log.len(), 256);
    assert_eq!(ui.terminal_log[0], "line 44");
    assert_eq!(ui.terminal_log[255], "line 299");
}

#[test]
fn log_at_the_limit() {
    let mut ui = UiState::default();
    for i in 0..254 {
        ui.log_message(format!("{}", i));
    }
    assert_eq!(ui.terminal_log.len(), 256);
    assert_eq!(ui.terminal_log[0], "The Inferno Interactive Console v666");
    ui.log_message("last".to_string());
    assert_eq!(ui.terminal_log.len(), 256);
    assert_eq!(ui.terminal_log[0], "Type `commands` for a list of commands or try `help <command>`.");
}

#[test]
fn submitting_input() {
    let mut ui = UiState::default();
    ui.terminal_input = "  help man  ".to_string();
    assert_eq!(ui.submit_input(), Some("help man".to_string()));
    assert_eq!(ui.terminal_input, "");
    assert_eq!(ui.terminal_log.last().unwrap(), ">>> help man");
    ui.terminal_input = "   ".to_string();
    assert_eq!(ui.submit_input(), None);
    assert_eq!(ui.terminal_input, "   ");
    assert_eq!(ui.terminal_log.len(), 3);
}

#[test]
fn logging_results() {
    let mut ui = UiState::default();
    ui.log_result("Dealt 5 damage".to_string());
    assert_eq!(ui.terminal_log.last().unwrap(), "Dealt 5 damage\n");
}

#[test]
fn dialogue_flow() {
    let mut ui = UiState::default();
    assert_eq!(ui.next(), Some(PlayerAction::Ping));
    ui.receive_response(NpcResponse {
        message: "you're new here, right?".to_string(),
        name: None,
        choices: vec!["Yeah".to_string(), "I guess...?".to_string()],
    });
    assert_eq!(ui.dialogue, vec![(None, "you're new here, right?".to_string())]);
    assert_eq!(ui.next(), None);
    assert_eq!(ui.pick_choice(2), None);
    assert_eq!(ui.choices.len(), 2);
    assert_eq!(ui.pick_choice(1), Some(PlayerAction::Respond(1)));
    assert_eq!(ui.dialogue[1], (Some("You".to_string()), "I guess...?".to_string()));
    assert!(ui.choices.is_empty());
    assert_eq!(ui.next(), Some(PlayerAction::Ping));
}

#[test]
fn windows_by_progress() {
    assert_eq!(windows_for(GameProgress::Intro), (false, false));
    assert_eq!(windows_for(GameProgress::Tutorial), (false, false));
    assert_eq!(windows_for(GameProgress::HasPanel), (true, false));
    assert_eq!(windows_for(GameProgress::HasTerminal), (true, true));
}

#[test]
fn hint_for_known_command() {
    match command_hint("MAN foo", 0) {
        CommandHint::Synopsis(s) => assert_eq!(s, "man <command_name>"),
        CommandHint::Completions(_) => panic!("expected a synopsis"),
    }
    match command_hint("manual", 0) {
        CommandHint::Synopsis(s) => assert_eq!(s, "man <command_name>"),
        CommandHint::Completions(_) => panic!("expected a synopsis"),
    }
}

#[test]
fn hint_completions_sorted() {
    assert_eq!(completions("", 0), vec!["commands", "help", "man"]);
    assert_eq!(completions("", 2), vec!["commands", "fireball", "help", "man"]);
    assert_eq!(completions("  ", 2), vec!["commands", "fireball", "help", "man"]);
    assert_eq!(completions("F", 2), vec!["fireball"]);
    assert_eq!(completions("fi", 1), Vec::<&str>::new());
    assert_eq!(completions("zz", 9), Vec::<&str>::new());
}

#[test]
fn tile_kinds() {
    let t = Tile::from_neighbors(true, false, true, true);
    assert_eq!(t.tile_type, 13);
    assert_eq!(t.neighbors, (true, true, false, true));
    let e = Tile::empty();
    assert_eq!(e.tile_type, 0);
    assert_eq!(e.neighbors, (false, false, false, false));
}

fn rows(lines: &[&str]) -> Vec<Vec<char>> {
    lines.iter().map(|l| l.chars().collect()).collect()
}

#[test]
fn tiles_from_rows() {
    // y counts from the bottom row
    let grid = rows(&["#.#", "...", "#.#"]);
    let tiles = build_tiles(&grid, 3, 3);
    assert_eq!(tiles.len(), 3);
    assert!(tiles.iter().all(|c| c.len() == 3));
    assert_eq!(tiles[1][1].tile_type, 15);
    assert_eq!(tiles[0][0].tile_type, 0);
    assert_eq!(tiles[0][1].tile_type, 1);
    assert_eq!(tiles[0][1].neighbors, (false, true, false, false));
    assert_eq!(tiles[1][0].tile_type, 2);
    assert_eq!(tiles[1][2].tile_type, 8);
    assert_eq!(tiles[2][1].tile_type, 4);
}

#[test]
fn map_loads_once() {
    let mut map = TileMap::new();
    assert!(!map.loaded);
    map.load(&rows(&["..", "#."]), 2, 2, (1, 0));
    assert!(map.loaded);
    assert_eq!(map.width, 2);
    assert_eq!(map.start_pos, (1, 0));
    assert_eq!(map.tiles[1][0].tile_type, 2);
    assert_eq!(map.tiles[0][1].tile_type, 1);
    map.load(&rows(&["#"]), 1, 1, (0, 0));
    assert_eq!(map.width, 2);
    assert_eq!(map.tiles.len(), 2);
}

#[test]
fn intro_cutscene_runs_then_tutorial() {
    let mut gs = GameState::default();
    let mut cg = Cg { frames: 3, index: 0 };
    assert_eq!(cg.show(&mut gs, false), CgFrame::Showing(0));
    assert!(gs.is_showing_cg);
    assert_eq!(cg.show(&mut gs, true), CgFrame::Showing(1));
    assert_eq!(cg.show(&mut gs, true), CgFrame::Showing(2));
    assert_eq!(gs.game_progress, GameProgress::Intro);
    assert_eq!(cg.show(&mut gs, true), CgFrame::Finished);
    assert!(!gs.is_showing_cg);
    assert_eq!(gs.game_progress, GameProgress::Tutorial);
    assert_eq!(cg.show(&mut gs, true), CgFrame::Hidden);
    assert_eq!(cg.index, 3);
}

#[test]
fn single_frame_cutscene_ends_on_first_press() {
    let mut gs = GameState::default();
    let mut cg = Cg { frames: 1, index: 0 };
    assert_eq!(cg.show(&mut gs, true), CgFrame::Finished);
    assert_eq!(gs.game_progress, GameProgress::Tutorial);
}
