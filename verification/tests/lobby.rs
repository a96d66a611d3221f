use pravda::game::{position, process_join, process_leave, process_tick, Game, Participants, Phase};
use pravda::message::{GameEvent, GameMessage, GameReaction, Recipients};
use pravda::player::{Gun, Player, Role};

fn joiners(g: &Game) -> Vec<String> {
    match g.players {
        Participants::Joiners(ref v) => v.clone(),
        Participants::Players(_) => panic!("the roster holds players"),
    }
}

fn join(nick: &str) -> GameEvent {
    GameEvent::Join(nick.to_string())
}

fn leave(nick: &str) -> GameEvent {
    GameEvent::Leave(nick.to_string())
}

fn said(ch: &str, content: &str) -> GameMessage {
    GameMessage { recipients: Recipients::Channel(ch.to_string()), content: content.to_string() }
}

/// Test Game construction.
#[test]
fn test_new_game() {
    let g = Game::new(&"#test_channel".to_string());
    assert!(g.channel == "#test_channel");
    assert!(match g.gun {
        Gun::Loaded => true,
        _ => false,
    });
    assert!(match g.phase {
        Phase::Inactive => true,
        _ => false,
    });
}

/// Test a Join event on an inactive game.
#[test]
fn test_join_event() {
    let g = Game::new(&"#test_channel".to_string());
    let e = GameEvent::Join("test_nick".to_string());
    let g2 = g.process(e);
    assert!(match g2.players {
        Participants::Players(_) => false,
        Participants::Joiners(ref v) => v.len() == 1 && v[0] == "test_nick",
    });
    assert!(match g2.phase {
        Phase::Starting(_) => true,
        _ => false,
    });
}

/// Test two join events.
#[test]
fn test_two_joins() {
    let g = Game::new(&"#test_channel".to_string());
    let e1 = GameEvent::Join("test_nick1".to_string());
    let e2 = GameEvent::Join("test_nick2".to_string());
    let g2 = g.process(e1);
    let g3 = g2.process(e2);
    assert!(match g3.phase {
        Phase::Starting(_) => true,
        _ => false,
    });
    match g3.players {
        Participants::Players(_) => assert!(false),
        Participants::Joiners(ref v) => {
            assert!(v.len() == 2);
            assert!(v.contains(&"test_nick1".to_string()));
            assert!(v.contains(&"test_nick2".to_string()))
        }
    }
}

/// Test an attempt to join twice with the same nick.
#[test]
fn test_join_twice() {
    let mut g = Game::new(&"#test_channel".to_string());
    let e = GameEvent::Join("test_nick".to_string());
    let e2 = GameEvent::Join("test_nick".to_string());
    g = g.process(e);
    g = g.process(e2);
    assert!(match g.players {
        Participants::Players(_) => false,
        Participants::Joiners(ref v) => v.len() == 1 && v[0] == "test_nick",
    });
}

/// Test of the leave event. Join single player and leave.
#[test]
fn test_leave() {
    // Create a Game and a join and leave Event for the same nick.
    let mut g = Game::new(&"#test_channel".to_string());
    let e = GameEvent::Join("test_nick".to_string());
    let e2 = GameEvent::Leave("test_nick".to_string());
    // Process events.
    g = g.process(e);
    g = g.process(e2);
    // Assertions:
    // When the only player of a game that is starting quits, the game goes inactive.
    assert!(match g.phase {
        Phase::Inactive => true,
        _ => false,
    });
    // And the player list is empty.
    assert!(match g.players {
        Participants::Players(_) => false,
        Participants::Joiners(ref v) => v.len() == 0,
    });
}

#[test]
// Testing two joins, followed by two leaves.
fn test_two_joins_two_leaves() {
    // Create a Game and two join and leave Events.
    let mut g = Game::new(&"#test_channel".to_string());
    let e = GameEvent::Join("test_nick".to_string());
    let e2 = GameEvent::Join("test_nick2".to_string());
    let e3 = GameEvent::Leave("test_nick".to_string());
    let e4 = GameEvent::Leave("test_nick2".to_string());
    // Process events.
    g = g.process(e);
    g = g.process(e2);
    g = g.process(e3);
    // Assertions:
    // After two joins and one leave, we're on Starting phase.
    assert!(match g.phase {
        Phase::Starting(_) => true,
        _ => false,
    });
    // And there's one player.
    assert!(match g.players {
        Participants::Players(_) => false,
        Participants::Joiners(ref v) => v.len() == 1,
    });
    // Now we process the last leave event.
    g = g.process(e4);
    // Assertions:
    // Back to the Starting condition with no players.
    assert!(match g.phase {
        Phase::Inactive => true,
        _ => false,
    });
    assert!(match g.players {
        Participants::Players(_) => false,
        Participants::Joiners(ref v) => v.len() == 0,
    });
}

#[test]
fn new_game_is_idle_and_empty() {
    let g = Game::new(&"#test".to_string());
    assert_eq!(g.players, Participants::Joiners(vec![]));
    assert_eq!(g.phase, Phase::Inactive);
    assert_eq!(g.ticks, 8);
    assert!(g.log.is_empty());
    assert!(g.pending.is_empty());
}

#[test]
fn first_join_opens_the_lobby() {
    let g = Game::new(&"#test".to_string()).process(join("alice"));
    assert_eq!(g.phase, Phase::Starting(6));
    assert_eq!(g.players, Participants::Joiners(vec!["alice".to_string()]));
    assert_eq!(g.pending.len(), 1);
    assert_eq!(g.pending[0].event, join("alice"));
    assert_eq!(g.pending[0].msg, vec![said("#test", "alice starting new game!")]);
    assert!(g.log.is_empty());
}

#[test]
fn join_opens_the_lobby_for_any_nick() {
    for nick in ["alice", "", "a b", "\u{e9}milie", "#test"] {
        let g = Game::new(&"#test".to_string()).process(join(nick));
        assert_eq!(g.phase, Phase::Starting(6));
        assert_eq!(joiners(&g), vec![nick.to_string()]);
    }
}

#[test]
fn second_join_of_the_same_nick_only_talks() {
    let once = Game::new(&"#test".to_string()).process(join("alice"));
    let roster = joiners(&once);
    let twice = once.process(join("alice"));
    assert_eq!(joiners(&twice), roster);
    assert_eq!(joiners(&twice), vec!["alice".to_string()]);
    assert_eq!(twice.phase, Phase::Starting(6));
    assert_eq!(twice.pending.len(), 2);
    assert_eq!(twice.pending[1].msg, vec![said("#test", "alice already joined.")]);
}

#[test]
fn another_join_is_welcomed() {
    let g = Game::new(&"#test".to_string()).process(join("alice")).process(join("bob"));
    assert_eq!(joiners(&g), vec!["alice".to_string(), "bob".to_string()]);
    assert_eq!(g.pending[1].msg, vec![said("#test", "bob joins the game.")]);
}

#[test]
fn one_of_two_leaves() {
    let g = Game::new(&"#test".to_string())
        .process(join("alice"))
        .process(join("bob"))
        .process(leave("alice"));
    assert_eq!(joiners(&g), vec!["bob".to_string()]);
    assert_eq!(g.phase, Phase::Starting(6));
    assert_eq!(g.pending[2].event, leave("alice"));
    assert_eq!(g.pending[2].msg, vec![said("#test", "alice has left the game.")]);
}

#[test]
fn last_one_out_cancels_the_game() {
    let g = Game::new(&"#test".to_string()).process(join("alice")).clean_up();
    let g = g.process(leave("alice"));
    assert_eq!(g.phase, Phase::Inactive);
    assert_eq!(g.players, Participants::Joiners(vec![]));
    assert_eq!(g.pending.len(), 1);
    assert_eq!(
        g.pending[0].msg,
        vec![
            said("#test", "alice has left the game."),
            said("#test", "No players left. Game cancelled."),
        ]
    );
}

#[test]
fn join_then_leave_is_idle_again_for_any_nick() {
    for nick in ["alice", "", "Bob", "x y"] {
        let g = Game::new(&"#test".to_string()).process(join(nick)).process(leave(nick));
        assert_eq!(g.phase, Phase::Inactive);
        assert_eq!(g.players, Participants::Joiners(vec![]));
    }
}

#[test]
fn joins_in_any_order_gather_the_same_nicks() {
    let nicks = ["carol", "alice", "bob"];
    let orders: [[usize; 3]; 6] =
        [[0, 1, 2], [0, 2, 1], [1, 0, 2], [1, 2, 0], [2, 0, 1], [2, 1, 0]];
    for order in orders {
        let mut g = Game::new(&"#test".to_string());
        for i in order {
            g = g.process(join(nicks[i]));
        }
        let roster = joiners(&g);
        let arrived: Vec<String> = order.iter().map(|i| nicks[*i].to_string()).collect();
        assert_eq!(roster, arrived);
        let mut sorted = roster.clone();
        sorted.sort();
        assert_eq!(sorted, vec!["alice".to_string(), "bob".to_string(), "carol".to_string()]);
    }
}

#[test]
fn leave_of_a_stranger_is_remarked() {
    let g = Game::new(&"#test".to_string()).process(join("alice")).process(leave("bob"));
    assert_eq!(joiners(&g), vec!["alice".to_string()]);
    assert_eq!(g.phase, Phase::Starting(6));
    assert_eq!(g.pending[1].msg, vec![said("#test", "bob hasn't joined yet.")]);
}

#[test]
fn leave_goes_unnoticed_outside_the_lobby() {
    let idle = Game::new(&"#test".to_string());
    let g = idle.process(leave("alice"));
    assert_eq!(g, Game::new(&"#test".to_string()));

    let mut running = Game::new(&"#test".to_string());
    running.phase = Phase::Day(1);
    running.players = Participants::Players(vec![Player::new("alice".to_string(), Role::Worker)]);
    let g = running.process(leave("alice"));
    assert_eq!(g.phase, Phase::Day(1));
    assert_eq!(
        g.players,
        Participants::Players(vec![Player::new("alice".to_string(), Role::Worker)])
    );
    assert!(g.pending.is_empty());
}

#[test]
fn join_is_turned_away_from_a_running_game() {
    for phase in [Phase::Day(1), Phase::Night(3)] {
        let mut running = Game::new(&"#test".to_string());
        running.phase = phase;
        running.players =
            Participants::Players(vec![Player::new("alice".to_string(), Role::Spy)]);
        let g = running.process(join("bob"));
        assert_eq!(g.phase, phase);
        assert_eq!(
            g.players,
            Participants::Players(vec![Player::new("alice".to_string(), Role::Spy)])
        );
        assert_eq!(g.pending.len(), 1);
        assert_eq!(g.pending[0].event, join("bob"));
        assert_eq!(
            g.pending[0].msg,
            vec![said("#test", "A game is in place. Wait until it's over.")]
        );
    }
}

#[test]
fn lobby_with_players_in_it_is_left_alone() {
    let mut odd = Game::new(&"#test".to_string());
    odd.phase = Phase::Starting(3);
    odd.players = Participants::Players(vec![]);
    let g = odd.process(join("bob")).process(leave("bob"));
    assert_eq!(g.phase, Phase::Starting(3));
    assert_eq!(g.players, Participants::Players(vec![]));
    assert!(g.pending.is_empty());
}

#[test]
fn other_events_change_nothing() {
    let events = [
        GameEvent::Msg("hello".to_string()),
        GameEvent::Night(1, 2),
        GameEvent::Day(1, 2),
        GameEvent::Begin,
        GameEvent::Quit,
        GameEvent::Notice("alice".to_string(), "psst".to_string()),
    ];
    for e in events {
        let lobby = Game::new(&"#test".to_string()).process(join("alice"));
        let g = lobby.process(e);
        assert_eq!(g, Game::new(&"#test".to_string()).process(join("alice")));
    }
}

#[test]
fn tick_is_lost_on_an_idle_game() {
    let g = Game::new(&"#test".to_string()).process(GameEvent::Tick);
    assert_eq!(g, Game::new(&"#test".to_string()));
    let mut running = Game::new(&"#test".to_string());
    running.phase = Phase::Night(2);
    running.ticks = 3;
    let g = running.process(GameEvent::Tick);
    assert_eq!(g.phase, Phase::Night(2));
    assert_eq!(g.ticks, 3);
}

#[test]
fn ticks_wind_the_counter_down() {
    let mut g = Game::new(&"#test".to_string()).process(join("alice"));
    for left in [7u8, 6, 5, 4, 3, 2, 1] {
        g = g.process(GameEvent::Tick);
        assert_eq!(g.ticks, left);
        assert_eq!(g.phase, Phase::Starting(6));
    }
    g = g.process(GameEvent::Tick);
    assert_eq!(g.ticks, 8);
    assert_eq!(g.phase, Phase::Starting(5));
    assert_eq!(joiners(&g), vec!["alice".to_string()]);
    assert_eq!(g.pending.len(), 1);
}

#[test]
fn lobby_closes_when_the_countdown_is_over() {
    let mut g = Game::new(&"#test".to_string()).process(join("alice")).clean_up();
    for _ in 0..48 {
        g = g.process(GameEvent::Tick);
        assert!(matches!(g.phase, Phase::Starting(_)));
    }
    assert_eq!(g.phase, Phase::Starting(0));
    assert_eq!(g.ticks, 8);
    g = g.process(GameEvent::Tick);
    assert_eq!(g.phase, Phase::Inactive);
    assert_eq!(g.players, Participants::Joiners(vec![]));
    assert_eq!(g.ticks, 8);
    assert_eq!(g.log.len(), 1);
    assert!(g.pending.is_empty());
}

#[test]
fn run_down_counter_is_wound_up_again() {
    let mut g = Game::new(&"#test".to_string()).process(join("alice"));
    g.ticks = 0;
    let g = g.process(GameEvent::Tick);
    assert_eq!(g.ticks, 8);
    assert_eq!(g.phase, Phase::Starting(5));
}

#[test]
fn process_phase_settles_the_phase() {
    let mut g = Game::new(&"#test".to_string()).process(join("alice"));
    g.process_phase();
    assert_eq!(g.phase, Phase::Starting(6));
    assert_eq!(g.ticks, 8);
    g.ticks = 0;
    g.phase = Phase::Starting(1);
    let after = g.process_phase();
    assert_eq!(after.phase, Phase::Starting(0));
    assert_eq!(after.ticks, 8);
    g.ticks = 5;
    g.process_phase();
    assert_eq!(g.phase, Phase::Inactive);
    assert_eq!(g.players, Participants::Joiners(vec![]));
    assert_eq!(g.ticks, 8);
}

#[test]
fn clean_up_moves_pending_to_the_log() {
    let g = Game::new(&"#test".to_string()).process(join("alice")).clean_up();
    assert_eq!(g.log.len(), 1);
    assert!(g.pending.is_empty());
    let g = g.process(join("bob")).process(join("bob")).process(leave("carol"));
    assert_eq!(g.pending.len(), 3);
    assert_eq!(g.log.len(), 1);
    let g = g.clean_up();
    assert!(g.pending.is_empty());
    assert_eq!(g.log.len(), 4);
    assert_eq!(g.log[0].event, join("alice"));
    assert_eq!(g.log[1].msg, vec![said("#test", "bob joins the game.")]);
    assert_eq!(g.log[2].msg, vec![said("#test", "bob already joined.")]);
    assert_eq!(g.log[3].event, leave("carol"));
    let again = g.clean_up();
    assert!(again.pending.is_empty());
    assert_eq!(again.log.len(), 4);
}

#[test]
fn start_changes_nothing_yet() {
    let mut g = Game::new(&"#test".to_string()).process(join("alice"));
    g.start();
    assert_eq!(g, Game::new(&"#test".to_string()).process(join("alice")));
}

#[test]
fn handlers_ignore_events_of_another_kind() {
    let g = process_join(Game::new(&"#test".to_string()), leave("alice"));
    assert_eq!(g, Game::new(&"#test".to_string()));
    let lobby = process_join(Game::new(&"#test".to_string()), join("alice"));
    assert_eq!(joiners(&lobby), vec!["alice".to_string()]);
    let g = process_leave(lobby, join("alice"));
    assert_eq!(joiners(&g), vec!["alice".to_string()]);
    assert_eq!(g.pending.len(), 1);
    let g = process_tick(g);
    assert_eq!(g.ticks, 7);
}

#[test]
fn position_is_that_of_the_first_match() {
    let nicks = vec!["a".to_string(), "b".to_string(), "a".to_string()];
    assert_eq!(position(&nicks, &"a".to_string()), Some(0));
    assert_eq!(position(&nicks, &"b".to_string()), Some(1));
    assert_eq!(position(&nicks, &"c".to_string()), None);
    assert_eq!(position(&vec![], &"a".to_string()), None);
}

#[test]
fn reaction_keeps_its_lines_in_order() {
    let mut gr = GameReaction::new(&join("alice"));
    assert_eq!(gr.event, join("alice"));
    assert!(gr.msg.is_empty());
    gr.add(GameMessage::public("#test".to_string(), "one".to_string()));
    let seen = gr.add(GameMessage::public("#test".to_string(), "two".to_string()));
    assert_eq!(seen.msg.len(), 2);
    assert_eq!(gr.msg, vec![said("#test", "one"), said("#test", "two")]);
}

#[test]
fn event_clone_is_the_same_event() {
    let events = [
        join("alice"),
        leave("bob"),
        GameEvent::Msg("hello".to_string()),
        GameEvent::Night(1, 2),
        GameEvent::Day(3, 4),
        GameEvent::Quit,
        GameEvent::Tick,
        GameEvent::Notice("alice".to_string(), "psst".to_string()),
        GameEvent::Begin,
    ];
    for e in events.iter() {
        assert_eq!(&e.clone(), e);
    }
}

fn consistent(g: &Game) -> bool {
    let roster_fits = match (&g.phase, &g.players) {
        (Phase::Inactive, Participants::Joiners(v)) => v.is_empty(),
        (Phase::Starting(c), Participants::Joiners(v)) => *c <= 6 && !v.is_empty(),
        (Phase::Inactive, _) | (Phase::Starting(_), _) => false,
        _ => true,
    };
    let nobody_twice = match &g.players {
        Participants::Joiners(v) => {
            (0..v.len()).all(|i| (0..i).all(|j| v[i] != v[j]))
        }
        Participants::Players(v) => {
            (0..v.len()).all(|i| (0..i).all(|j| v[i].nick != v[j].nick))
        }
    };
    1 <= g.ticks && g.ticks <= 8 && roster_fits && nobody_twice
}

#[test]
fn game_stays_consistent_whatever_happens() {
    let nicks = ["alice", "bob", "carol"];
    let mut seed: u32 = 12345;
    let mut g = Game::new(&"#test".to_string());
    assert!(consistent(&g));
    for _ in 0..5000 {
        seed = seed.wrapping_mul(1664525).wrapping_add(1013904223);
        let nick = nicks[(seed >> 16) as usize % nicks.len()];
        let event = match (seed >> 24) % 8 {
            0 | 1 => join(nick),
            2 => leave(nick),
            3 => GameEvent::Msg(nick.to_string()),
            _ => GameEvent::Tick,
        };
        let log = g.log.len();
        let pending = g.pending.len();
        g = g.process(event);
        assert!(consistent(&g));
        assert_eq!(g.log.len(), log);
        assert!(g.pending.len() == pending || g.pending.len() == pending + 1);
        if (seed >> 8) % 5 == 0 {
            let waiting = g.pending.len();
            g = g.clean_up();
            assert!(consistent(&g));
            assert!(g.pending.is_empty());
            assert_eq!(g.log.len(), log + waiting);
        }
    }
}
