use inferno_engineer::alice::AliceNpc;
use inferno_engineer::npcs::{get_npc_by_id, npc_by_lowercase_id, Npc, NpcResponse, PlayerAction};
use inferno_engineer::session::{NpcPlacement, Session};
use inferno_engineer::state::{GameProgress, GameState};

fn drain(npc: &mut AliceNpc) -> Vec<NpcResponse> {
    let mut out = Vec::new();
    while let Some(r) = npc.get_response() {
        out.push(r);
    }
    out
}

fn messages(rs: &[NpcResponse]) -> Vec<String> {
    rs.iter().map(|r| r.message.clone()).collect()
}

#[test]
fn fresh_character() {
    let mut alice = AliceNpc::default();
    assert_eq!(alice.progress, 0);
    assert_eq!(alice.hitpoints, i32::MAX);
    assert_eq!(alice.id(), "alice");
    assert_eq!(alice.name(), "???");
    assert_eq!(alice.info(), "???");
    assert!(!alice.job_completed());
    assert!(alice.get_response().is_none());
}

#[test]
fn ping_runs_first_step() {
    let mut alice = AliceNpc::default();
    let mut gs = GameState::default();
    alice.handle_action(&PlayerAction::Ping, &mut gs);
    assert_eq!(alice.progress, 1);
    assert_eq!(gs.game_progress, GameProgress::HasPanel);
    let r = alice.get_response().unwrap();
    assert_eq!(r.message, "oh hi human being! welcome to hell!");
    assert_eq!(r.name, Some("???".to_string()));
    assert!(r.choices.is_empty());
    assert!(alice.get_response().is_none());
}

#[test]
fn second_step_offers_choices() {
    let mut alice = AliceNpc::default();
    let mut gs = GameState::default();
    alice.handle_action(&PlayerAction::Ping, &mut gs);
    alice.handle_action(&PlayerAction::Ping, &mut gs);
    let rs = drain(&mut alice);
    assert_eq!(rs.len(), 2);
    assert_eq!(rs[1].message, "you're new here, right?");
    assert_eq!(rs[1].name, None);
    assert_eq!(rs[1].choices, vec!["Yeah".to_string(), "I guess...?".to_string()]);
}

#[test]
fn attack_takes_exact_damage() {
    let mut alice = AliceNpc::default();
    let mut gs = GameState::default();
    alice.handle_action(&PlayerAction::Ping, &mut gs);
    alice.handle_action(&PlayerAction::Attack(7), &mut gs);
    assert_eq!(alice.hitpoints, i32::MAX - 7);
    assert_eq!(alice.progress, 1);
    alice.handle_action(&PlayerAction::Attack(-3), &mut gs);
    assert_eq!(alice.hitpoints, i32::MAX - 4);
    assert_eq!(alice.progress, 1);
    assert_eq!(messages(&drain(&mut alice)), vec!["oh hi human being! welcome to hell!"]);
}

#[test]
fn progress_moves_one_per_interaction() {
    let mut alice = AliceNpc::default();
    let mut gs = GameState::default();
    for k in 0..25usize {
        assert_eq!(alice.progress, k);
        let action = if k % 2 == 0 { PlayerAction::Ping } else { PlayerAction::Respond(1) };
        alice.handle_action(&action, &mut gs);
        assert_eq!(alice.progress, k + 1);
    }
}

#[test]
fn responses_come_out_in_order() {
    let mut alice = AliceNpc::default();
    let mut gs = GameState::default();
    for _ in 0..10 {
        alice.handle_action(&PlayerAction::Ping, &mut gs);
    }
    let rs = drain(&mut alice);
    assert_eq!(
        messages(&rs[8..]),
        vec![
            "anyways, the hell is currently undergoing some system upgrades.",
            "things have been going really, *really* bad lately.",
            "bugs are everywhere, and even the most overworked workers couldn't fix them.",
            "even worse, at least half of them quit their jobs last month.",
        ]
    );
    assert!(alice.get_response().is_none());
    alice.handle_action(&PlayerAction::Ping, &mut gs);
    assert_eq!(
        alice.get_response().unwrap().message,
        "i've heard about you before. you were an engineer, right?"
    );
    assert!(alice.get_response().is_none());
}

#[test]
fn earlier_responses_stay_ahead() {
    let mut alice = AliceNpc::default();
    let mut gs = GameState::default();
    alice.handle_action(&PlayerAction::Ping, &mut gs);
    alice.handle_action(&PlayerAction::Ping, &mut gs);
    assert_eq!(alice.get_response().unwrap().message, "oh hi human being! welcome to hell!");
    alice.handle_action(&PlayerAction::Ping, &mut gs);
    assert_eq!(alice.get_response().unwrap().message, "you're new here, right?");
    assert_eq!(
        alice.get_response().unwrap().message,
        "oh cool! do you remember what happened?"
    );
    assert!(alice.get_response().is_none());
}

#[test]
fn remembered_branch() {
    let mut alice = AliceNpc::default();
    let mut gs = GameState::default();
    for _ in 0..5 {
        alice.handle_action(&PlayerAction::Ping, &mut gs);
    }
    drain(&mut alice);
    alice.handle_action(&PlayerAction::Respond(1), &mut gs);
    assert_eq!(alice.previous_choice, 1);
    let r = alice.get_response().unwrap();
    assert_eq!(r.message, "so it seems like you do remember...");
    assert_eq!(alice.progress, 6);
    alice.handle_action(&PlayerAction::Ping, &mut gs);
    assert_eq!(
        alice.get_response().unwrap().message,
        "yes, human. that truck was the last thing you saw."
    );
    assert!(alice.get_response().is_none());
    assert_eq!(alice.progress, 7);
    alice.handle_action(&PlayerAction::Ping, &mut gs);
    assert_eq!(alice.get_response().unwrap().message, "....");
}

#[test]
fn forgetting_branch() {
    let mut alice = AliceNpc::default();
    let mut gs = GameState::default();
    for _ in 0..5 {
        alice.handle_action(&PlayerAction::Ping, &mut gs);
    }
    drain(&mut alice);
    alice.handle_action(&PlayerAction::Respond(0), &mut gs);
    alice.handle_action(&PlayerAction::Ping, &mut gs);
    assert_eq!(
        messages(&drain(&mut alice)),
        vec![
            "this is the inferno. a place where decease souls and other creatures belong.",
            "i'm sorry, human. but i have some bad news. you have just died.",
        ]
    );
}

#[test]
fn name_is_revealed() {
    let mut alice = AliceNpc::default();
    let mut gs = GameState::default();
    for _ in 0..17 {
        alice.handle_action(&PlayerAction::Ping, &mut gs);
    }
    assert_eq!(alice.name(), "BreeDFS");
    assert_eq!(
        alice.info(),
        "BreeDFS\nA floating sphere resembling the BreeDFS logo.\nThe ultimate form of evil, overlord of hell."
    );
    drain(&mut alice);
    alice.handle_action(&PlayerAction::Ping, &mut gs);
    let r = alice.get_response().unwrap();
    assert_eq!(r.name, Some("BreeDFS".to_string()));
    assert_eq!(r.choices, vec!["Oh, that's why you looked very familiar...".to_string()]);
}

#[test]
fn full_script_round_trip() {
    let mut npc = get_npc_by_id("alice").unwrap();
    let mut gs = GameState::default();
    let mut calls = 0usize;
    let mut action = PlayerAction::Ping;
    let mut panel_at = None;
    let mut terminal_at = None;
    while !npc.job_completed() {
        npc.handle_action(&action, &mut gs);
        calls += 1;
        if gs.game_progress == GameProgress::HasPanel && panel_at.is_none() {
            panel_at = Some(calls);
        }
        if gs.game_progress == GameProgress::HasTerminal && terminal_at.is_none() {
            terminal_at = Some(calls);
        }
        let mut last_choices = Vec::new();
        while let Some(r) = npc.get_response() {
            last_choices = r.choices;
        }
        action = if last_choices.is_empty() { PlayerAction::Ping } else { PlayerAction::Respond(0) };
    }
    assert_eq!(calls, 25);
    assert_eq!(panel_at, Some(1));
    assert_eq!(terminal_at, Some(21));
    assert_eq!(gs.game_progress, GameProgress::HasTerminal);
}

#[test]
fn registry_of_characters() {
    let npc = get_npc_by_id(" ALICE ").unwrap();
    assert_eq!(npc.id(), "alice");
    assert_eq!(npc.name(), "???");
    assert_eq!(npc.info(), "???");
    assert!(get_npc_by_id("bob").is_none());
    assert!(get_npc_by_id("").is_none());
}

fn session_with_alice_at(x: usize, y: usize) -> Session {
    Session {
        game_state: GameState::default(),
        active_npc: None,
        placements: vec![NpcPlacement { id: "alice".to_string(), x, y }],
    }
}

#[test]
fn tick_runs_console_lines() {
    let mut session = session_with_alice_at(3, 3);
    let report = session.tick(&["help man", "fireball", "dance"], &[]);
    assert_eq!(
        report.results,
        vec![
            "man <command_name>".to_string(),
            "Error: You do not have access to run that command.\nThis incident will be reported.".to_string(),
            "Error: Invalid command: dance".to_string(),
        ]
    );
    assert!(report.response.is_none());
    assert!(session.active_npc.is_none());
    assert!(!session.game_state.in_battle);
}

#[test]
fn tick_starts_encounter_on_tile() {
    let mut session = session_with_alice_at(0, 0);
    let report = session.tick(&[], &[]);
    assert!(report.results.is_empty());
    assert!(report.response.is_none());
    assert!(session.game_state.in_battle);
    assert_eq!(session.game_state.game_progress, GameProgress::HasPanel);
    match &session.active_npc {
        Some(Npc::Alice(a)) => assert_eq!(a.progress, 1),
        None => panic!("no encounter"),
    }
    let report = session.tick(&[], &[]);
    assert_eq!(report.response.unwrap().message, "oh hi human being! welcome to hell!");
    let report = session.tick(&[], &[]);
    assert!(report.response.is_none());
}

#[test]
fn tick_feeds_queued_attacks() {
    let mut session = session_with_alice_at(0, 0);
    session.game_state.player_level = 2;
    session.tick(&[], &[]);
    let report = session.tick(&["fireball 3", "fireball"], &[PlayerAction::Attack(1)]);
    assert_eq!(report.results, vec!["Dealt 3 damage".to_string(), "Dealt 5 damage".to_string()]);
    assert!(session.game_state.action_queue.is_empty());
    match &session.active_npc {
        Some(Npc::Alice(a)) => {
            assert_eq!(a.hitpoints, i32::MAX - 9);
            assert_eq!(a.progress, 1);
        },
        None => panic!("no encounter"),
    }
}

#[test]
fn tick_ends_encounter() {
    let mut session = session_with_alice_at(0, 0);
    session.placements.push(NpcPlacement { id: "bob".to_string(), x: 1, y: 0 });
    session.tick(&[], &[]);
    let mut ticks = 0;
    while session.active_npc.is_some() {
        let report = session.tick(&[], &[PlayerAction::Ping]);
        ticks += 1;
        if session.active_npc.is_some() {
            assert!(report.response.is_some());
        }
    }
    assert_eq!(ticks, 24);
    assert!(!session.game_state.in_battle);
    assert_eq!(session.game_state.game_progress, GameProgress::HasTerminal);
    assert_eq!(session.placements.len(), 1);
    assert_eq!(session.placements[0].id, "bob");
    session.tick(&[], &[]);
    assert!(session.active_npc.is_none());
}

#[test]
fn tick_passes_over_actions_after_the_end() {
    let mut session = session_with_alice_at(0, 0);
    session.tick(&[], &[]);
    let pings = vec![PlayerAction::Ping; 40];
    let report = session.tick(&[], &pings);
    assert!(report.response.is_some());
    assert!(session.active_npc.is_none());
    assert!(session.placements.is_empty());
}

#[test]
fn lookup_of_lowercased_ids() {
    assert!(npc_by_lowercase_id("alice").is_some());
    assert!(npc_by_lowercase_id("Alice").is_none());
    assert!(get_npc_by_id("Alice").is_some());
}

#[test]
fn every_interaction_queues_a_response() {
    for choice in 0..3usize {
        let mut alice = AliceNpc::default();
        let mut gs = GameState::default();
        for k in 0..25usize {
            let action = if k % 3 == 0 { PlayerAction::Ping } else { PlayerAction::Respond(choice) };
            alice.handle_action(&action, &mut gs);
            assert!(!drain(&mut alice).is_empty(), "step {} choice {}", k, choice);
        }
    }
}

#[test]
fn story_gate_never_goes_back() {
    let mut alice = AliceNpc::default();
    let mut gs = GameState::default();
    gs.game_progress = GameProgress::HasTerminal;
    alice.handle_action(&PlayerAction::Ping, &mut gs);
    assert_eq!(gs.game_progress, GameProgress::HasTerminal);

    let mut alice = AliceNpc::default();
    let mut gs = GameState::default();
    gs.game_progress = GameProgress::Tutorial;
    alice.handle_action(&PlayerAction::Ping, &mut gs);
    assert_eq!(gs.game_progress, GameProgress::HasPanel);
}

#[test]
fn raising_the_gate() {
    let mut gs = GameState::default();
    gs.raise_progress(GameProgress::Tutorial);
    assert_eq!(gs.game_progress, GameProgress::Tutorial);
    gs.raise_progress(GameProgress::Intro);
    assert_eq!(gs.game_progress, GameProgress::Tutorial);
    gs.raise_progress(GameProgress::HasTerminal);
    gs.raise_progress(GameProgress::HasPanel);
    assert_eq!(gs.game_progress, GameProgress::HasTerminal);
}

#[test]
fn finished_character_leaves_under_every_spelling() {
    let mut session = Session {
        game_state: GameState::default(),
        active_npc: None,
        placements: vec![
            NpcPlacement { id: "alice".to_string(), x: 0, y: 0 },
            NpcPlacement { id: " ALICE".to_string(), x: 2, y: 0 },
            NpcPlacement { id: "bob".to_string(), x: 3, y: 0 },
        ],
    };
    session.tick(&[], &[]);
    let pings = vec![PlayerAction::Ping; 30];
    session.tick(&[], &pings);
    assert!(session.active_npc.is_none());
    assert_eq!(session.placements.len(), 1);
    assert_eq!(session.placements[0].id, "bob");
    session.game_state.player_x = 2;
    session.tick(&[], &[]);
    assert!(session.active_npc.is_none());
    assert_eq!(session.game_state.game_progress, GameProgress::HasTerminal);
}
