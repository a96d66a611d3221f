//! From chat traffic to game events.

use vstd::prelude::*;
use vstd::string::StringExecFns;
use crate::message::{EventView, GameEvent};
use crate::text::{chars_of, contains, first_word, lowercase, marked_word, occurs_in};

verus! {

/// What a line of chat traffic is about, as far as the game cares.
#[derive(Debug, PartialEq, Eq)]
pub enum Traffic {
    /// `nick` said `text` to `target`, which is a channel or a nick.
    Privmsg { nick: String, target: String, text: String },
    /// `nick` is gone from the channel: renamed, parted, or off the network.
    Departure { nick: String },
    /// Anything else.
    Other,
}

/// One line of chat traffic: what it is about, and the line as it came.
#[derive(Debug, PartialEq, Eq)]
pub struct Inbound {
    pub traffic: Traffic,
    pub line: String,
}

/// [`Traffic`] over sequences of characters.
pub enum TrafficView {
    Privmsg { nick: Seq<char>, target: Seq<char>, text: Seq<char> },
    Departure { nick: Seq<char> },
    Other,
}

/// [`Inbound`] over sequences of characters.
pub struct InboundView {
    pub traffic: TrafficView,
    pub line: Seq<char>,
}

impl View for Traffic {
    type V = TrafficView;

    open spec fn view(&self) -> TrafficView {
        match self {
            Traffic::Privmsg { nick, target, text } => TrafficView::Privmsg {
                nick: nick@,
                target: target@,
                text: text@,
            },
            Traffic::Departure { nick } => TrafficView::Departure { nick: nick@ },
            Traffic::Other => TrafficView::Other,
        }
    }
}

impl View for Inbound {
    type V = InboundView;

    open spec fn view(&self) -> InboundView {
        InboundView { traffic: self.traffic@, line: self.line@ }
    }
}

/// The character every command begins with.
pub const COMMAND_MARK: char = '!';

/// The character every channel's name begins with.
pub const CHANNEL_MARK: char = '#';

/// The command by which one joins a game.
pub open spec fn join_command() -> Seq<char> {
    "!join"@
}

/// The word that makes the bot leave, wherever it stands in a line.
pub open spec fn shutdown_word() -> Seq<char> {
    "exitnow"@
}

/// What somebody is told who asks to join in private.
pub open spec fn go_public_text() -> Seq<char> {
    "This command must be issued in public."@
}

/// The bot's last words.
pub open spec fn farewell_text() -> Seq<char> {
    "Owner asked me to quit, do vstrechi!"@
}

/// The command that `text` gives, in lowercase: its first word, if that begins
/// with the command mark.
pub open spec fn command_of(text: Seq<char>) -> Option<Seq<char>> {
    let word = first_word(text);
    if word.len() > 0 && word[0] == COMMAND_MARK {
        Some(lowercase(word))
    } else {
        None
    }
}

/// What follows from `nick` giving `command`, in lowercase, to `target`: a join
/// where the command asks for one in a channel, a notice to `nick` where it asks
/// for one elsewhere, and nothing for any other command.
pub open spec fn command_outcome(command: Seq<char>, nick: Seq<char>, target: Seq<char>) -> Seq<
    EventView,
> {
    if command != join_command() {
        Seq::empty()
    } else if target.len() > 0 && target[0] == CHANNEL_MARK {
        seq![EventView::Join(nick)]
    } else {
        seq![EventView::Notice(nick, go_public_text())]
    }
}

/// What follows from `line` as such: the bot's farewell and its quitting where
/// the line holds the shutdown word, nothing where it does not.
pub open spec fn shutdown_outcome(line: Seq<char>) -> Seq<EventView> {
    if occurs_in(line, shutdown_word()) {
        seq![EventView::Notice(Seq::empty(), farewell_text()), EventView::Quit]
    } else {
        Seq::empty()
    }
}

impl InboundView {
    /// The events that this line of traffic gives rise to, in order: first what
    /// it is about, then what the line as such asks for.
    pub open spec fn events(self) -> Seq<EventView> {
        (match self.traffic {
            TrafficView::Privmsg { nick, target, text } => match command_of(text) {
                Some(command) => command_outcome(command, nick, target),
                None => Seq::empty(),
            },
            TrafficView::Departure { nick } => seq![EventView::Leave(nick)],
            TrafficView::Other => Seq::empty(),
        }) + shutdown_outcome(self.line)
    }
}

/// Turns a command, given in lowercase by `nick` to `target`, into events: see
/// [`command_outcome`].
pub fn command_events(command: &String, nick: &String, target: &String) -> (events: Vec<GameEvent>)
    ensures
        events.deep_view() == command_outcome(command@, nick@, target@),
{
    let mut events: Vec<GameEvent> = Vec::new();
    if *command == String::from_str("!join") {
        let place = chars_of(target.as_str());
        if place.len() > 0 && place[0] == CHANNEL_MARK {
            events.push(GameEvent::Join(nick.clone()));
        } else {
            events.push(
                GameEvent::Notice(
                    nick.clone(),
                    String::from_str("This command must be issued in public."),
                ),
            );
        }
    }
    events
}

/// Turns a line as such into events: see [`shutdown_outcome`].
pub fn shutdown_events(line: &String) -> (events: Vec<GameEvent>)
    ensures
        events.deep_view() == shutdown_outcome(line@),
{
    let mut events: Vec<GameEvent> = Vec::new();
    if contains(&chars_of(line.as_str()), &chars_of("exitnow")) {
        events.push(
            GameEvent::Notice(String::new(), String::from_str("Owner asked me to quit, do vstrechi!")),
        );
        events.push(GameEvent::Quit);
    }
    events
}

/// Turns one line of chat traffic into the events it gives rise to, in order:
/// see [`InboundView::events`].
pub fn process_cmd(msg: &Inbound) -> (events: Vec<GameEvent>)
    ensures
        events.deep_view() == msg@.events(),
{
    let mut events: Vec<GameEvent> = match &msg.traffic {
        Traffic::Privmsg { nick, target, text } => match marked_word(text.as_str(), COMMAND_MARK) {
            Some(command) => command_events(&command, nick, target),
            None => Vec::new(),
        },
        Traffic::Departure { nick } => {
            let mut gone: Vec<GameEvent> = Vec::new();
            gone.push(GameEvent::Leave(nick.clone()));
            gone
        },
        Traffic::Other => Vec::new(),
    };
    let mut last = shutdown_events(&msg.line);
    events.append(&mut last);
    events
}

} // verus!
