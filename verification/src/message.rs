//! What goes into the game and what comes out of it: events, chat lines, reactions.

use vstd::prelude::*;

verus! {

/// Whom a chat line is for: a channel, or some nicks in private.
#[derive(Debug, PartialEq, Eq)]
pub enum Recipients {
    Channel(String),
    Nicks(Vec<String>),
}

/// [`Recipients`] over sequences of characters.
pub enum RecipientsView {
    Channel(Seq<char>),
    Nicks(Seq<Seq<char>>),
}

impl View for Recipients {
    type V = RecipientsView;

    open spec fn view(&self) -> RecipientsView {
        match self {
            Recipients::Channel(ch) => RecipientsView::Channel(ch@),
            Recipients::Nicks(nicks) => RecipientsView::Nicks(nicks.deep_view()),
        }
    }
}

/// A chat line from the game: whom it is for, and what it says.
#[derive(Debug, PartialEq, Eq)]
pub struct GameMessage {
    pub recipients: Recipients,
    pub content: String,
}

/// [`GameMessage`] over sequences of characters.
pub struct MessageView {
    pub recipients: RecipientsView,
    pub content: Seq<char>,
}

impl MessageView {
    /// The line `content` said aloud in channel `ch`.
    pub open spec fn public(ch: Seq<char>, content: Seq<char>) -> MessageView {
        MessageView { recipients: RecipientsView::Channel(ch), content }
    }
}

impl View for GameMessage {
    type V = MessageView;

    open spec fn view(&self) -> MessageView {
        MessageView { recipients: self.recipients@, content: self.content@ }
    }
}

impl DeepView for GameMessage {
    type V = MessageView;

    open spec fn deep_view(&self) -> MessageView {
        self@
    }
}

impl GameMessage {
    /// A line for everybody in channel `ch`.
    pub fn public(ch: String, content: String) -> (gm: GameMessage)
        ensures
            gm@ == MessageView::public(ch@, content@),
    {
        let r = Recipients::Channel(ch);
        GameMessage { recipients: r, content: content }
    }
}

/// Something that happens to a game.
#[derive(Debug, PartialEq, Eq)]
pub enum GameEvent {
    Join(String),
    Leave(String),
    Msg(String),
    Night(u8, u8),
    Day(u8, u8),
    Quit,
    Tick,
    Notice(String, String),
    Begin,
}

/// [`GameEvent`] over sequences of characters.
pub enum EventView {
    Join(Seq<char>),
    Leave(Seq<char>),
    Msg(Seq<char>),
    Night(u8, u8),
    Day(u8, u8),
    Quit,
    Tick,
    Notice(Seq<char>, Seq<char>),
    Begin,
}

impl View for GameEvent {
    type V = EventView;

    open spec fn view(&self) -> EventView {
        match self {
            GameEvent::Join(nick) => EventView::Join(nick@),
            GameEvent::Leave(nick) => EventView::Leave(nick@),
            GameEvent::Msg(text) => EventView::Msg(text@),
            GameEvent::Night(a, b) => EventView::Night(*a, *b),
            GameEvent::Day(a, b) => EventView::Day(*a, *b),
            GameEvent::Quit => EventView::Quit,
            GameEvent::Tick => EventView::Tick,
            GameEvent::Notice(target, text) => EventView::Notice(target@, text@),
            GameEvent::Begin => EventView::Begin,
        }
    }
}

impl DeepView for GameEvent {
    type V = EventView;

    open spec fn deep_view(&self) -> EventView {
        self@
    }
}

impl Clone for GameEvent {
    fn clone(&self) -> (e: GameEvent)
        ensures
            e@ == self@,
    {
        match self {
            GameEvent::Join(nick) => GameEvent::Join(nick.clone()),
            GameEvent::Leave(nick) => GameEvent::Leave(nick.clone()),
            GameEvent::Msg(text) => GameEvent::Msg(text.clone()),
            GameEvent::Night(a, b) => GameEvent::Night(*a, *b),
            GameEvent::Day(a, b) => GameEvent::Day(*a, *b),
            GameEvent::Quit => GameEvent::Quit,
            GameEvent::Tick => GameEvent::Tick,
            GameEvent::Notice(target, text) => GameEvent::Notice(target.clone(), text.clone()),
            GameEvent::Begin => GameEvent::Begin,
        }
    }
}

/// An event together with the chat lines the game answered it with, in order.
#[derive(Debug, PartialEq, Eq)]
pub struct GameReaction {
    pub event: GameEvent,
    pub msg: Vec<GameMessage>,
}

/// [`GameReaction`] over sequences.
pub struct ReactionView {
    pub event: EventView,
    pub msg: Seq<MessageView>,
}

impl ReactionView {
    /// The reaction to `event` that says nothing yet.
    pub open spec fn silent(event: EventView) -> ReactionView {
        ReactionView { event, msg: Seq::empty() }
    }

    /// This reaction with `message` as its new last line.
    pub open spec fn with(self, message: MessageView) -> ReactionView {
        ReactionView { event: self.event, msg: self.msg.push(message) }
    }
}

impl View for GameReaction {
    type V = ReactionView;

    open spec fn view(&self) -> ReactionView {
        ReactionView { event: self.event@, msg: self.msg.deep_view() }
    }
}

impl DeepView for GameReaction {
    type V = ReactionView;

    open spec fn deep_view(&self) -> ReactionView {
        self@
    }
}

impl GameReaction {
    /// Starts the reaction to `e`, with no line in it.
    pub fn new(e: &GameEvent) -> (gr: GameReaction)
        ensures
            gr@ == ReactionView::silent(e@),
    {
        let gr = GameReaction { event: e.clone(), msg: Vec::new() };
        assert(gr.msg.deep_view() =~= Seq::empty());
        gr
    }

    /// Appends `msg` to the reaction: the lines stay in the order they were added.
    pub fn add(&mut self, msg: GameMessage) -> (gr: &GameReaction)
        ensures
            final(self)@ == old(self)@.with(msg@),
            gr@ == final(self)@,
    {
        self.msg.push(msg);
        assert(self.msg.deep_view() =~= old(self).msg.deep_view().push(msg@));
        self
    }
}

} // verus!
