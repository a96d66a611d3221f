use pravda::dispatch::{deliver, Action};
use pravda::game::{Game, Participants, Phase};
use pravda::message::{GameEvent, GameMessage, GameReaction, Recipients};

fn notice(target: &str, text: &str) -> GameEvent {
    GameEvent::Notice(target.to_string(), text.to_string())
}

#[test]
fn line_to_a_channel_is_one_notice() {
    let mut gr = GameReaction::new(&GameEvent::Tick);
    gr.add(GameMessage::public("#test".to_string(), "hello".to_string()));
    assert_eq!(deliver(&gr), vec![notice("#test", "hello")]);
}

#[test]
fn line_to_nicks_is_a_notice_each() {
    let mut gr = GameReaction::new(&GameEvent::Begin);
    gr.add(GameMessage {
        recipients: Recipients::Nicks(vec!["alice".to_string(), "bob".to_string()]),
        content: "psst".to_string(),
    });
    assert_eq!(deliver(&gr), vec![notice("alice", "psst"), notice("bob", "psst")]);
}

#[test]
fn lines_are_delivered_in_order() {
    let mut gr = GameReaction::new(&GameEvent::Begin);
    gr.add(GameMessage::public("#test".to_string(), "one".to_string()));
    gr.add(GameMessage {
        recipients: Recipients::Nicks(vec!["alice".to_string(), "bob".to_string()]),
        content: "two".to_string(),
    });
    gr.add(GameMessage { recipients: Recipients::Nicks(vec![]), content: "none".to_string() });
    gr.add(GameMessage::public("#other".to_string(), "three".to_string()));
    assert_eq!(
        deliver(&gr),
        vec![
            notice("#test", "one"),
            notice("alice", "two"),
            notice("bob", "two"),
            notice("#other", "three"),
        ]
    );
}

#[test]
fn silent_reaction_delivers_nothing() {
    assert_eq!(deliver(&GameReaction::new(&GameEvent::Tick)), vec![]);
}

#[test]
fn quit_ends_the_loop() {
    let lobby = Game::new(&"#test".to_string()).process(GameEvent::Join("alice".to_string()));
    let (game, action) = lobby.dispatch(GameEvent::Quit);
    assert_eq!(action, Action::Quit { reason: "Pravda goes bye-bye!".to_string() });
    assert_eq!(game, Game::new(&"#test".to_string()).process(GameEvent::Join("alice".to_string())));
}

#[test]
fn notice_goes_to_its_target() {
    let (game, action) = Game::new(&"#test".to_string()).dispatch(notice("alice", "psst"));
    assert_eq!(action, Action::Send { target: "alice".to_string(), text: "psst".to_string() });
    assert_eq!(game, Game::new(&"#test".to_string()));
}

#[test]
fn notice_without_target_goes_to_the_channel() {
    let (game, action) = Game::new(&"#test".to_string()).dispatch(notice("", "bye"));
    assert_eq!(action, Action::Send { target: "#test".to_string(), text: "bye".to_string() });
    assert_eq!(game, Game::new(&"#test".to_string()));
}

#[test]
fn join_is_played_and_answered() {
    let (game, action) =
        Game::new(&"#test".to_string()).dispatch(GameEvent::Join("alice".to_string()));
    assert_eq!(action, Action::Queue(vec![notice("#test", "alice starting new game!")]));
    assert_eq!(game.phase, Phase::Starting(6));
    assert_eq!(game.players, Participants::Joiners(vec!["alice".to_string()]));
    assert!(game.pending.is_empty());
    assert_eq!(game.log.len(), 1);
}

#[test]
fn last_leave_is_answered_twice() {
    let (game, _) = Game::new(&"#test".to_string()).dispatch(GameEvent::Join("alice".to_string()));
    let (game, action) = game.dispatch(GameEvent::Leave("alice".to_string()));
    assert_eq!(
        action,
        Action::Queue(vec![
            notice("#test", "alice has left the game."),
            notice("#test", "No players left. Game cancelled."),
        ])
    );
    assert_eq!(game.phase, Phase::Inactive);
    assert!(game.pending.is_empty());
    assert_eq!(game.log.len(), 2);
}

#[test]
fn tick_is_played_in_silence() {
    let (game, _) = Game::new(&"#test".to_string()).dispatch(GameEvent::Join("alice".to_string()));
    let (game, action) = game.dispatch(GameEvent::Tick);
    assert_eq!(action, Action::Queue(vec![]));
    assert_eq!(game.ticks, 7);
    assert_eq!(game.log.len(), 1);
}

#[test]
fn all_that_is_pending_goes_out() {
    let game = Game::new(&"#test".to_string())
        .process(GameEvent::Join("alice".to_string()))
        .process(GameEvent::Join("bob".to_string()));
    let (game, action) = game.dispatch(GameEvent::Join("bob".to_string()));
    assert_eq!(
        action,
        Action::Queue(vec![
            notice("#test", "alice starting new game!"),
            notice("#test", "bob joins the game."),
            notice("#test", "bob already joined."),
        ])
    );
    assert!(game.pending.is_empty());
    assert_eq!(game.log.len(), 3);
}
