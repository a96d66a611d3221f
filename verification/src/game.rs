//! The game itself: its phases, its roster, and how each event changes it.

use vstd::prelude::*;
use vstd::string::StringExecFns;
use crate::laws::step_keeps_consistency;
use crate::message::{EventView, GameEvent, GameMessage, GameReaction, MessageView, ReactionView};
use crate::player::{Gun, Player, PlayerView};

verus! {

/// How many ticks pass between two steps of the lobby's countdown.
pub const MAX_TICKS: u8 = 8;

/// The countdown a lobby opens with.
pub const LOBBY_COUNTDOWN: u8 = 6;

/// Where a game stands.
#[derive(Clone, Copy, Debug, PartialEq, Eq, Structural)]
pub enum Phase {
    Day(u8),
    Night(u8),
    Inactive,
    Starting(u8),
}

/// Who takes part: nicks while the lobby is open, players once the game runs.
#[derive(Debug, PartialEq, Eq)]
pub enum Participants {
    Joiners(Vec<String>),
    Players(Vec<Player>),
}

/// [`Participants`] over sequences.
pub enum RosterView {
    Joiners(Seq<Seq<char>>),
    Players(Seq<PlayerView>),
}

impl View for Participants {
    type V = RosterView;

    open spec fn view(&self) -> RosterView {
        match self {
            Participants::Joiners(nicks) => RosterView::Joiners(nicks.deep_view()),
            Participants::Players(players) => RosterView::Players(players.deep_view()),
        }
    }
}

/// The state of one game, bound to one channel.
#[derive(Debug, PartialEq, Eq)]
pub struct Game {
    pub gun: Gun,
    pub players: Participants,
    pub phase: Phase,
    pub channel: String,
    pub log: Vec<GameReaction>,
    pub pending: Vec<GameReaction>,
    pub ticks: u8,
}

/// [`Game`] over sequences: the value the rules of the game are stated on.
pub struct GameView {
    pub gun: Gun,
    pub players: RosterView,
    pub phase: Phase,
    pub channel: Seq<char>,
    pub log: Seq<ReactionView>,
    pub pending: Seq<ReactionView>,
    pub ticks: u8,
}

impl View for Game {
    type V = GameView;

    open spec fn view(&self) -> GameView {
        GameView {
            gun: self.gun,
            players: self.players@,
            phase: self.phase,
            channel: self.channel@,
            log: self.log.deep_view(),
            pending: self.pending.deep_view(),
            ticks: self.ticks,
        }
    }
}

/// The line that opens a lobby.
pub open spec fn starting_text(nick: Seq<char>) -> Seq<char> {
    nick + " starting new game!"@
}

/// The line that welcomes a new joiner.
pub open spec fn joins_text(nick: Seq<char>) -> Seq<char> {
    nick + " joins the game."@
}

/// The line for somebody who joins a second time.
pub open spec fn already_joined_text(nick: Seq<char>) -> Seq<char> {
    nick + " already joined."@
}

/// The line for somebody who wants to join a running game.
pub open spec fn game_in_place_text() -> Seq<char> {
    "A game is in place. Wait until it's over."@
}

/// The line for somebody who leaves without having joined.
pub open spec fn not_joined_text(nick: Seq<char>) -> Seq<char> {
    nick + " hasn't joined yet."@
}

/// The line that sees a joiner off.
pub open spec fn left_text(nick: Seq<char>) -> Seq<char> {
    nick + " has left the game."@
}

/// The line that closes an empty lobby.
pub open spec fn cancelled_text() -> Seq<char> {
    "No players left. Game cancelled."@
}

impl GameView {
    /// The game a channel starts with: nothing runs, nobody has joined, nothing was said.
    pub open spec fn fresh(channel: Seq<char>) -> GameView {
        GameView {
            gun: Gun::Loaded,
            players: RosterView::Joiners(Seq::empty()),
            phase: Phase::Inactive,
            channel,
            log: Seq::empty(),
            pending: Seq::empty(),
            ticks: MAX_TICKS,
        }
    }

    /// The consistent states: the counter is within its range, an idle game has an
    /// empty lobby, an open lobby holds at least one nick and none twice, and no two
    /// players share a nick.
    pub open spec fn wf(self) -> bool {
        &&& 1 <= self.ticks <= MAX_TICKS
        &&& match self.players {
            RosterView::Joiners(nicks) => nicks.no_duplicates(),
            RosterView::Players(players) => forall|i: int, j: int|
                0 <= i < j < players.len() ==> players[i].nick != players[j].nick,
        }
        &&& match self.phase {
            Phase::Inactive => self.players is Joiners && self.players->Joiners_0.len() == 0,
            Phase::Starting(countdown) => countdown <= LOBBY_COUNTDOWN
                && self.players is Joiners && self.players->Joiners_0.len() > 0,
            _ => true,
        }
    }

    /// The line `text`, said aloud in the game's channel.
    pub open spec fn line(self, text: Seq<char>) -> MessageView {
        MessageView::public(self.channel, text)
    }

    /// The reaction to `event` that says `text` in the game's channel.
    pub open spec fn answer(self, event: EventView, text: Seq<char>) -> ReactionView {
        ReactionView::silent(event).with(self.line(text))
    }

    /// This game with `reaction` waiting to be delivered, behind all that waits already.
    pub open spec fn react(self, reaction: ReactionView) -> GameView {
        GameView { pending: self.pending.push(reaction), ..self }
    }

    /// This game after `nick` asked to join.
    ///
    /// An idle game opens a lobby with `nick` in it. An open lobby takes `nick` in
    /// unless they are in already. A running game turns `nick` away, in public.
    pub open spec fn join(self, nick: Seq<char>) -> GameView {
        let event = EventView::Join(nick);
        match self.phase {
            Phase::Inactive => GameView {
                phase: Phase::Starting(LOBBY_COUNTDOWN),
                players: RosterView::Joiners(seq![nick]),
                ..self
            }.react(self.answer(event, starting_text(nick))),
            Phase::Starting(_) => match self.players {
                RosterView::Joiners(nicks) => if nicks.contains(nick) {
                    self.react(self.answer(event, already_joined_text(nick)))
                } else {
                    GameView { players: RosterView::Joiners(nicks.push(nick)), ..self }.react(
                        self.answer(event, joins_text(nick)),
                    )
                },
                RosterView::Players(_) => self,
            },
            _ => self.react(self.answer(event, game_in_place_text())),
        }
    }

    /// This game after `nick` left.
    ///
    /// Only an open lobby notices. It lets `nick` go if they had joined, and the last
    /// one to go takes the lobby with them: the game is idle again, which a second
    /// line of the same reaction tells the channel.
    pub open spec fn leave(self, nick: Seq<char>) -> GameView {
        let event = EventView::Leave(nick);
        match self.phase {
            Phase::Starting(_) => match self.players {
                RosterView::Joiners(nicks) => if !nicks.contains(nick) {
                    self.react(self.answer(event, not_joined_text(nick)))
                } else {
                    let rest = nicks.remove_value(nick);
                    let farewell = self.answer(event, left_text(nick));
                    if rest.len() == 0 {
                        GameView {
                            phase: Phase::Inactive,
                            players: RosterView::Joiners(rest),
                            ..self
                        }.react(farewell.with(self.line(cancelled_text())))
                    } else {
                        GameView { players: RosterView::Joiners(rest), ..self }.react(farewell)
                    }
                },
                RosterView::Players(_) => self,
            },
            _ => self,
        }
    }

    /// This game with one tick taken off the counter of an open lobby.
    pub open spec fn wound_down(self) -> GameView {
        match self.phase {
            Phase::Starting(_) => GameView {
                ticks: if self.ticks > 0 {
                    (self.ticks - 1) as u8
                } else {
                    0
                },
                ..self
            },
            _ => self,
        }
    }

    /// This game after its phase has caught up with the counter.
    ///
    /// A lobby whose countdown is at zero closes: the game is idle again and the
    /// roster empty. Any other lobby whose counter has run out moves its countdown
    /// one step on and winds the counter up again.
    pub open spec fn phase_settled(self) -> GameView {
        match self.phase {
            Phase::Starting(countdown) => if countdown == 0 {
                GameView {
                    phase: Phase::Inactive,
                    players: RosterView::Joiners(Seq::empty()),
                    ticks: MAX_TICKS,
                    ..self
                }
            } else if self.ticks == 0 {
                GameView {
                    phase: Phase::Starting((countdown - 1) as u8),
                    ticks: MAX_TICKS,
                    ..self
                }
            } else {
                self
            },
            _ => self,
        }
    }

    /// This game one tick later.
    pub open spec fn tick(self) -> GameView {
        self.wound_down().phase_settled()
    }

    /// This game after `event`: the whole table of phases and events.
    pub open spec fn step(self, event: EventView) -> GameView {
        match event {
            EventView::Tick => self.tick(),
            EventView::Join(nick) => self.join(nick),
            EventView::Leave(nick) => self.leave(nick),
            _ => self,
        }
    }

    /// This game with all that was pending moved to the end of the log.
    pub open spec fn settled(self) -> GameView {
        GameView { log: self.log + self.pending, pending: Seq::empty(), ..self }
    }
}

/// Where `nick` stands first in `nicks`, if it stands there at all.
pub fn position(nicks: &Vec<String>, nick: &String) -> (found: Option<usize>)
    ensures
        match found {
            Some(i) => i < nicks.len() && nicks.deep_view().contains(nick@)
                && nicks.deep_view().index_of_first(nick@) == Some(i as int),
            None => !nicks.deep_view().contains(nick@),
        },
{
    let ghost names = nicks.deep_view();
    let mut i: usize = 0;
    while i < nicks.len()
        invariant
            i <= nicks.len(),
            names == nicks.deep_view(),
            forall|j: int| 0 <= j < i ==> names[j] != nick@,
        decreases nicks.len() - i,
    {
        if nicks[i] == *nick {
            proof {
                names.index_of_first_ensures(nick@);
                assert(names[i as int] == nick@);
            }
            return Some(i);
        }
        i += 1;
    }
    None
}

impl Game {
    /// The game that channel `ch` starts with.
    pub fn new(ch: &String) -> (g: Game)
        ensures
            g@ == GameView::fresh(ch@),
            g@.wf(),
    {
        let s = Game {
            gun: Gun::Loaded,
            channel: ch.clone(),
            players: Participants::Joiners(Vec::new()),
            phase: Phase::Inactive,
            log: Vec::new(),
            pending: Vec::new(),
            ticks: MAX_TICKS,
        };
        proof {
            assert(s.pending.deep_view() =~= Seq::empty());
            assert(s.players@->Joiners_0 =~= Seq::empty());
        }
        s
    }
}

/// Handles a join: see [`GameView::join`]. Any other event leaves the game as it is.
pub fn process_join(mut g: Game, e: GameEvent) -> (r: Game)
    ensures
        r@ == (match e@ {
            EventView::Join(nick) => g@.join(nick),
            _ => g@,
        }),
{
    let ghost waiting = g.pending.deep_view();
    let mut gr = GameReaction::new(&e);
    if let GameEvent::Join(ref nick) = e {
        let nick = nick.clone();
        match g.phase {
            Phase::Inactive => {
                let gm = GameMessage::public(
                    g.channel.clone(),
                    nick.clone().concat(" starting new game!"),
                );
                let mut joiners: Vec<String> = Vec::new();
                joiners.push(nick);
                g.phase = Phase::Starting(LOBBY_COUNTDOWN);
                g.players = Participants::Joiners(joiners);
                gr.add(gm);
                g.pending.push(gr);
                proof {
                    assert(joiners.deep_view() =~= seq![nick@]);
                    assert(g.pending.deep_view() =~= waiting.push(gr@));
                }
                g
            },
            Phase::Starting(_) => {
                if let Participants::Joiners(ref mut p) = g.players {
                    let ghost before = p.deep_view();
                    if position(p, &nick).is_none() {
                        let gm = GameMessage::public(
                            g.channel.clone(),
                            nick.clone().concat(" joins the game."),
                        );
                        p.push(nick);
                        gr.add(gm);
                        assert(p.deep_view() =~= before.push(nick@));
                    } else {
                        let gm = GameMessage::public(
                            g.channel.clone(),
                            nick.concat(" already joined."),
                        );
                        gr.add(gm);
                    }
                    g.pending.push(gr);
                    assert(g.pending.deep_view() =~= waiting.push(gr@));
                }
                g
            },
            _ => {
                let gm = GameMessage::public(
                    g.channel.clone(),
                    String::from_str("A game is in place. Wait until it's over."),
                );
                gr.add(gm);
                g.pending.push(gr);
                assert(g.pending.deep_view() =~= waiting.push(gr@));
                g
            },
        }
    } else {
        g
    }
}

/// Handles a leave: see [`GameView::leave`]. Any other event leaves the game as it is.
pub fn process_leave(mut g: Game, e: GameEvent) -> (r: Game)
    ensures
        r@ == (match e@ {
            EventView::Leave(nick) => g@.leave(nick),
            _ => g@,
        }),
{
    let ghost waiting = g.pending.deep_view();
    let mut gr = GameReaction::new(&e);
    if let GameEvent::Leave(ref nick) = e {
        let nick = nick.clone();
        match g.phase {
            Phase::Starting(_) => {
                if let Participants::Joiners(ref mut p) = g.players {
                    let ghost before = p.deep_view();
                    match position(p, &nick) {
                        None => {
                            let gm = GameMessage::public(
                                g.channel.clone(),
                                nick.concat(" hasn't joined yet."),
                            );
                            gr.add(gm);
                        },
                        Some(index) => {
                            p.remove(index);
                            assert(p.deep_view() =~= before.remove(index as int));
                            let gm = GameMessage::public(
                                g.channel.clone(),
                                nick.concat(" has left the game."),
                            );
                            gr.add(gm);
                            if p.len() == 0 {
                                g.phase = Phase::Inactive;
                                let gm = GameMessage::public(
                                    g.channel.clone(),
                                    String::from_str("No players left. Game cancelled."),
                                );
                                gr.add(gm);
                            }
                        },
                    }
                    g.pending.push(gr);
                    assert(g.pending.deep_view() =~= waiting.push(gr@));
                }
                g
            },
            _ => g,
        }
    } else {
        g
    }
}

/// Handles a tick: see [`GameView::tick`].
pub fn process_tick(mut g: Game) -> (r: Game)
    ensures
        r@ == g@.tick(),
{
    match g.phase {
        Phase::Starting(_) => {
            if g.ticks > 0 {
                g.ticks -= 1;
            }
        },
        _ => (),
    }
    g.process_phase();
    g
}

impl Game {
    /// Starts the game proper. The rules for that are not written yet, so nothing
    /// changes.
    pub fn start(&mut self)
        ensures
            *final(self) == *old(self),
    {
    }

    /// Moves what is pending to the end of the log, in order.
    pub fn clean_up(self) -> (r: Game)
        ensures
            r@ == self@.settled(),
            r@.pending.len() == 0,
            r@.log.len() == self@.log.len() + self@.pending.len(),
            self@.wf() ==> r@.wf(),
    {
        let mut g = self;
        if g.pending.len() > 0 {
            g.log.append(&mut g.pending);
            g.pending = Vec::new();
        }
        proof {
            assert(g.pending.deep_view() =~= Seq::empty());
            assert(g.log.deep_view() =~= self.log.deep_view() + self.pending.deep_view());
        }
        g
    }

    /// Takes one event and gives the game that follows: see [`GameView::step`].
    pub fn process(self, event: GameEvent) -> (r: Game)
        ensures
            r@ == self@.step(event@),
            self@.wf() ==> r@.wf(),
    {
        proof {
            if self@.wf() {
                step_keeps_consistency(self@, event@);
            }
        }
        match event {
            GameEvent::Tick => process_tick(self),
            GameEvent::Join(_) => process_join(self, event),
            GameEvent::Leave(_) => process_leave(self, event),
            _ => self,
        }
    }

    /// Lets the phase catch up with the counter: see [`GameView::phase_settled`].
    pub fn process_phase(&mut self) -> (r: &Game)
        ensures
            final(self)@ == old(self)@.phase_settled(),
            r@ == final(self)@,
    {
        match self.phase {
            Phase::Inactive => {},
            Phase::Starting(0) => {
                self.phase = Phase::Inactive;
                self.players = Participants::Joiners(Vec::new());
                self.ticks = MAX_TICKS;
                assert(self.players@->Joiners_0 =~= Seq::empty());
            },
            Phase::Starting(i) => {
                if self.ticks == 0 {
                    self.phase = Phase::Starting(i - 1);
                    self.ticks = MAX_TICKS;
                }
            },
            _ => {},
        }
        self
    }
}

} // verus!
