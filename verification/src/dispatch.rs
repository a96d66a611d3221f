//! One turn of the loop that feeds the game: what to do with the next event.

use vstd::prelude::*;
use vstd::string::StringExecFns;
use crate::game::{Game, GameView};
use crate::message::{
    EventView,
    GameEvent,
    GameMessage,
    GameReaction,
    MessageView,
    ReactionView,
    Recipients,
    RecipientsView,
};

verus! {

/// The notices that carry `message` to each of its recipients, in order.
pub open spec fn notices_of(message: MessageView) -> Seq<EventView> {
    match message.recipients {
        RecipientsView::Channel(channel) => seq![EventView::Notice(channel, message.content)],
        RecipientsView::Nicks(nicks) => Seq::new(
            nicks.len(),
            |i: int| EventView::Notice(nicks[i], message.content),
        ),
    }
}

/// The notices that carry the first `n` of `messages`, in order.
pub open spec fn notices_upto(messages: Seq<MessageView>, n: int) -> Seq<EventView>
    decreases n,
{
    if n <= 0 {
        Seq::empty()
    } else {
        notices_upto(messages, n - 1) + notices_of(messages[n - 1])
    }
}

/// The notices that carry the first `n` of `reactions`, in order.
pub open spec fn outbox_upto(reactions: Seq<ReactionView>, n: int) -> Seq<EventView>
    decreases n,
{
    if n <= 0 {
        Seq::empty()
    } else {
        outbox_upto(reactions, n - 1) + reactions[n - 1].delivery()
    }
}

impl ReactionView {
    /// The notices that carry all lines of this reaction, in order.
    pub open spec fn delivery(self) -> Seq<EventView> {
        notices_upto(self.msg, self.msg.len() as int)
    }
}

/// What the loop has to do after an event.
#[derive(Debug, PartialEq, Eq)]
pub enum Action {
    /// Leave the network, giving `reason`, and stop.
    Quit { reason: String },
    /// Say `text` to `target`.
    Send { target: String, text: String },
    /// Put these events on the queue, in order.
    Queue(Vec<GameEvent>),
}

/// [`Action`] over sequences.
pub enum ActionView {
    Quit { reason: Seq<char> },
    Send { target: Seq<char>, text: Seq<char> },
    Queue(Seq<EventView>),
}

impl View for Action {
    type V = ActionView;

    open spec fn view(&self) -> ActionView {
        match self {
            Action::Quit { reason } => ActionView::Quit { reason: reason@ },
            Action::Send { target, text } => ActionView::Send { target: target@, text: text@ },
            Action::Queue(events) => ActionView::Queue(events.deep_view()),
        }
    }
}

/// What the bot says when it leaves the network.
pub open spec fn quit_reason() -> Seq<char> {
    "Pravda goes bye-bye!"@
}

impl GameView {
    /// The notices that carry all that is pending, in order.
    pub open spec fn outbox(self) -> Seq<EventView> {
        outbox_upto(self.pending, self.pending.len() as int)
    }

    /// What the loop has to do after `event`.
    ///
    /// A quit ends the loop. A notice is sent to its target, or to the game's
    /// channel where it names none. Any other event goes to the game, and all
    /// that is then pending goes out as notices.
    pub open spec fn action_on(self, event: EventView) -> ActionView {
        match event {
            EventView::Quit => ActionView::Quit { reason: quit_reason() },
            EventView::Notice(target, text) => ActionView::Send {
                target: if target.len() > 0 {
                    target
                } else {
                    self.channel
                },
                text,
            },
            _ => ActionView::Queue(self.step(event).outbox()),
        }
    }

    /// The game after the loop has dealt with `event`: a quit or a notice is
    /// none of the game's business, any other event is taken and its reactions
    /// are settled.
    pub open spec fn dispatched(self, event: EventView) -> GameView {
        match event {
            EventView::Quit => self,
            EventView::Notice(_, _) => self,
            _ => self.step(event).settled(),
        }
    }
}

/// Delivers a reaction: gives the notices that carry its lines, one for a line
/// to a channel, one for each nick of a line to nicks, in order.
pub fn deliver(gr: &GameReaction) -> (notices: Vec<GameEvent>)
    ensures
        notices.deep_view() == gr@.delivery(),
{
    let mut notices: Vec<GameEvent> = Vec::new();
    let mut i: usize = 0;
    while i < gr.msg.len()
        invariant
            i <= gr.msg.len(),
            notices.deep_view() == notices_upto(gr@.msg, i as int),
        decreases gr.msg.len() - i,
    {
        let message: &GameMessage = &gr.msg[i];
        let ghost before = notices.deep_view();
        match &message.recipients {
            Recipients::Channel(s) => {
                notices.push(GameEvent::Notice(s.clone(), message.content.clone()));
            },
            Recipients::Nicks(v) => {
                let mut j: usize = 0;
                while j < v.len()
                    invariant
                        j <= v.len(),
                        message.recipients == Recipients::Nicks(*v),
                        notices.deep_view() == before + notices_of(message@).take(j as int),
                    decreases v.len() - j,
                {
                    let ghost sofar = notices.deep_view();
                    notices.push(GameEvent::Notice(v[j].clone(), message.content.clone()));
                    assert(notices.deep_view() =~= sofar.push(
                        EventView::Notice(v[j as int]@, message.content@),
                    ));
                    j += 1;
                }
            },
        }
        i += 1;
    }
    notices
}

impl Game {
    /// Deals with the next event from the queue: gives the game that follows and
    /// what the loop has to do. See [`GameView::dispatched`] and
    /// [`GameView::action_on`].
    pub fn dispatch(self, event: GameEvent) -> (next: (Game, Action))
        ensures
            next.0@ == self@.dispatched(event@),
            next.1@ == self@.action_on(event@),
            self@.wf() ==> next.0@.wf(),
    {
        match event {
            GameEvent::Quit => (self, Action::Quit { reason: String::from_str("Pravda goes bye-bye!") }),
            GameEvent::Notice(target, text) => {
                let target = if target.as_str().is_empty() {
                    self.channel.clone()
                } else {
                    target
                };
                (self, Action::Send { target, text })
            },
            _ => {
                let game = self.process(event);
                let mut notices: Vec<GameEvent> = Vec::new();
                let mut i: usize = 0;
                while i < game.pending.len()
                    invariant
                        i <= game.pending.len(),
                        notices.deep_view() == outbox_upto(game@.pending, i as int),
                    decreases game.pending.len() - i,
                {
                    let mut more = deliver(&game.pending[i]);
                    notices.append(&mut more);
                    i += 1;
                }
                (game.clean_up(), Action::Queue(notices))
            },
        }
    }
}

} // verus!
