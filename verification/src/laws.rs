//! What holds of the game whatever is played: laws of the transition relation.

use vstd::prelude::*;
use crate::game::{already_joined_text, GameView, Phase, RosterView, LOBBY_COUNTDOWN, MAX_TICKS};
use crate::message::EventView;

verus! {

/// The events of `nicks` joining one after the other.
pub open spec fn joins(nicks: Seq<Seq<char>>) -> Seq<EventView> {
    Seq::new(nicks.len(), |i: int| EventView::Join(nicks[i]))
}

/// `n` ticks, one after the other.
pub open spec fn ticks(n: nat) -> Seq<EventView> {
    Seq::new(n, |i: int| EventView::Tick)
}

impl GameView {
    /// How many ticks an open lobby has left: those on the counter, a full
    /// counter for each further step of the countdown, and the one that closes it.
    pub open spec fn ticks_left(self) -> nat {
        match self.phase {
            Phase::Starting(countdown) => if countdown == 0 {
                1
            } else {
                (self.ticks + MAX_TICKS * (countdown - 1) + 1) as nat
            },
            _ => 0,
        }
    }

    /// This game after `events`, taken in order.
    pub open spec fn run(self, events: Seq<EventView>) -> GameView
        decreases events.len(),
    {
        if events.len() == 0 {
            self
        } else {
            self.run(events.drop_last()).step(events.last())
        }
    }
}

/// A game that a channel starts with is consistent.
pub proof fn fresh_game_is_consistent(channel: Seq<char>)
    ensures
        GameView::fresh(channel).wf(),
{
}

/// No event takes a consistent game to an inconsistent one.
pub proof fn step_keeps_consistency(g: GameView, event: EventView)
    requires
        g.wf(),
    ensures
        g.step(event).wf(),
{
    match event {
        EventView::Join(nick) => {
            if g.phase is Starting && !g.players->Joiners_0.contains(nick) {
                let nicks = g.players->Joiners_0;
                let more = nicks.push(nick);
                assert forall|i: int, j: int|
                    0 <= i < more.len() && 0 <= j < more.len() && i != j implies more[i]
                    != more[j] by {
                    if i < nicks.len() {
                        assert(nicks.contains(nicks[i]));
                    }
                    if j < nicks.len() {
                        assert(nicks.contains(nicks[j]));
                    }
                }
            }
        },
        EventView::Leave(nick) => {
            if g.phase is Starting && g.players->Joiners_0.contains(nick) {
                let nicks = g.players->Joiners_0;
                nicks.index_of_first_ensures(nick);
                let at = nicks.index_of_first(nick)->0;
                let rest = nicks.remove(at);
                assert forall|i: int, j: int|
                    0 <= i < rest.len() && 0 <= j < rest.len() && i != j implies rest[i]
                    != rest[j] by {
                    assert(rest[i] == nicks[if i < at { i } else { i + 1 }]);
                    assert(rest[j] == nicks[if j < at { j } else { j + 1 }]);
                }
            }
        },
        _ => {},
    }
}

/// An idle game that somebody joins becomes a lobby with just them in it.
pub proof fn join_opens_lobby(g: GameView, nick: Seq<char>)
    requires
        g.phase is Inactive,
    ensures
        g.step(EventView::Join(nick)).phase == Phase::Starting(LOBBY_COUNTDOWN),
        g.step(EventView::Join(nick)).players == RosterView::Joiners(seq![nick]),
{
}

/// No run of events takes a consistent game to an inconsistent one.
pub proof fn run_keeps_consistency(g: GameView, events: Seq<EventView>)
    requires
        g.wf(),
    ensures
        g.run(events).wf(),
    decreases events.len(),
{
    if events.len() > 0 {
        run_keeps_consistency(g, events.drop_last());
        step_keeps_consistency(g.run(events.drop_last()), events.last());
    }
}

/// A join adds its nick, and nothing else, to the nicks in a lobby, and leaves
/// the lobby open.
pub proof fn join_adds_its_nick(g: GameView, nick: Seq<char>)
    requires
        g.wf(),
        g.phase is Inactive || g.phase is Starting,
    ensures
        g.join(nick).wf(),
        g.join(nick).phase is Starting,
        g.join(nick).players is Joiners,
        g.join(nick).players->Joiners_0.to_set() == g.players->Joiners_0.to_set().insert(nick),
        !g.players->Joiners_0.contains(nick) ==> g.join(nick).players->Joiners_0
            == g.players->Joiners_0.push(nick),
{
    step_keeps_consistency(g, EventView::Join(nick));
    let had = g.players->Joiners_0;
    let has = g.join(nick).players->Joiners_0;
    assert forall|n: Seq<char>| has.contains(n) <==> had.contains(n) || n == nick by {
        if had.contains(n) {
            let k = choose|k: int| 0 <= k < had.len() && had[k] == n;
            assert(has[k] == n);
        }
        if n == nick && !had.contains(nick) {
            assert(has[had.len() as int] == nick);
        }
    }
    assert(has.to_set() =~= had.to_set().insert(nick));
}

/// However often whoever joins, the lobby then holds each of them once, beside
/// those that were in it before, and nobody else. In a game that was idle these
/// are the nicks that joined.
pub proof fn joins_gather_every_nick(g: GameView, nicks: Seq<Seq<char>>)
    requires
        g.wf(),
        g.phase is Inactive || g.phase is Starting,
    ensures
        g.run(joins(nicks)).wf(),
        g.run(joins(nicks)).players is Joiners,
        g.run(joins(nicks)).players->Joiners_0.no_duplicates(),
        g.run(joins(nicks)).players->Joiners_0.to_set() == g.players->Joiners_0.to_set().union(
            nicks.to_set(),
        ),
        g.phase is Inactive ==> g.run(joins(nicks)).players->Joiners_0.to_set() == nicks.to_set(),
        nicks.len() > 0 ==> g.run(joins(nicks)).phase is Starting,
        nicks.len() == 0 ==> g.run(joins(nicks)) == g,
    decreases nicks.len(),
{
    let had = g.players->Joiners_0;
    let has = g.run(joins(nicks)).players->Joiners_0;
    if nicks.len() > 0 {
        let earlier = nicks.drop_last();
        let nick = nicks.last();
        joins_gather_every_nick(g, earlier);
        assert(joins(nicks).drop_last() =~= joins(earlier));
        join_adds_its_nick(g.run(joins(earlier)), nick);
        assert forall|n: Seq<char>| nicks.contains(n) <==> earlier.contains(n) || n == nick by {
            if nicks.contains(n) && n != nick {
                let i = choose|i: int| 0 <= i < nicks.len() && nicks[i] == n;
                assert(earlier[i] == n);
            }
        }
        assert(nicks.to_set() =~= earlier.to_set().insert(nick));
    }
    assert(has.to_set() =~= had.to_set().union(nicks.to_set()));
    if g.phase is Inactive {
        assert(has.to_set() =~= nicks.to_set());
    }
}

/// Different nicks that join and are not in the lobby yet line up behind those
/// that are, in the order in which they came. In a game that was idle they make
/// up the lobby.
pub proof fn distinct_joins_fill_roster(g: GameView, nicks: Seq<Seq<char>>)
    requires
        g.wf(),
        g.phase is Inactive || g.phase is Starting,
        nicks.no_duplicates(),
        forall|i: int| 0 <= i < nicks.len() ==> !g.players->Joiners_0.contains(#[trigger] nicks[i]),
    ensures
        g.run(joins(nicks)).players is Joiners,
        g.run(joins(nicks)).players->Joiners_0 == g.players->Joiners_0 + nicks,
        g.phase is Inactive ==> g.run(joins(nicks)).players->Joiners_0 == nicks,
        g.phase is Inactive ==> g.run(joins(nicks)).players->Joiners_0.to_set() == nicks.to_set(),
    decreases nicks.len(),
{
    let had = g.players->Joiners_0;
    let has = g.run(joins(nicks)).players->Joiners_0;
    if nicks.len() > 0 {
        let earlier = nicks.drop_last();
        let nick = nicks.last();
        distinct_joins_fill_roster(g, earlier);
        joins_gather_every_nick(g, earlier);
        assert(joins(nicks).drop_last() =~= joins(earlier));
        join_adds_its_nick(g.run(joins(earlier)), nick);
        let lobby = had + earlier;
        assert(!lobby.contains(nick)) by {
            if lobby.contains(nick) {
                let k = choose|k: int| 0 <= k < lobby.len() && lobby[k] == nick;
                if k < had.len() {
                    assert(had.contains(had[k]));
                } else {
                    assert(nicks[k - had.len()] == nicks[nicks.len() - 1]);
                }
            }
        }
    }
    assert(has =~= had + nicks);
    if g.phase is Inactive {
        assert(had + nicks =~= nicks);
    }
}

/// The order in which different nicks join an idle game does not change who is
/// in the lobby afterwards.
pub proof fn join_order_is_immaterial(g: GameView, one: Seq<Seq<char>>, other: Seq<Seq<char>>)
    requires
        g.wf(),
        g.phase is Inactive,
        one.no_duplicates(),
        other.no_duplicates(),
        one.to_set() == other.to_set(),
    ensures
        g.run(joins(one)).players is Joiners,
        g.run(joins(other)).players is Joiners,
        g.run(joins(one)).players->Joiners_0.to_set() == g.run(
            joins(other),
        ).players->Joiners_0.to_set(),
{
    joins_gather_every_nick(g, one);
    joins_gather_every_nick(g, other);
}

/// Joining twice in a row is joining once, as far as roster and phase go. Where a
/// lobby is or gets open, the second join is answered with the remark that the
/// nick has joined already.
pub proof fn second_join_changes_nothing(g: GameView, nick: Seq<char>)
    ensures
        g.step(EventView::Join(nick)).step(EventView::Join(nick)).players == g.step(
            EventView::Join(nick),
        ).players,
        g.step(EventView::Join(nick)).step(EventView::Join(nick)).phase == g.step(
            EventView::Join(nick),
        ).phase,
        g.phase is Inactive || (g.phase is Starting && g.players is Joiners) ==> g.step(
            EventView::Join(nick),
        ).step(EventView::Join(nick)).pending == g.step(EventView::Join(nick)).pending.push(
            g.answer(EventView::Join(nick), already_joined_text(nick)),
        ),
{
    if g.phase is Inactive {
        assert(seq![nick][0] == nick);
    } else if g.phase is Starting && g.players is Joiners {
        let nicks = g.players->Joiners_0;
        if !nicks.contains(nick) {
            assert(nicks.push(nick)[nicks.len() as int] == nick);
        }
    }
}

/// Whoever opens a lobby and leaves it at once leaves an idle game with an empty
/// roster behind.
pub proof fn join_then_leave_restores_idle(g: GameView, nick: Seq<char>)
    requires
        g.phase is Inactive,
    ensures
        g.step(EventView::Join(nick)).step(EventView::Leave(nick)).phase == Phase::Inactive,
        g.step(EventView::Join(nick)).step(EventView::Leave(nick)).players
            == RosterView::Joiners(Seq::empty()),
{
    let lobby = seq![nick];
    assert(lobby[0] == nick);
    lobby.index_of_first_ensures(nick);
    assert(lobby.remove_value(nick) =~= Seq::empty());
}

/// Settling moves every pending reaction to the log and leaves none behind, and
/// settling again changes nothing.
pub proof fn settling_drains_pending(g: GameView)
    ensures
        g.settled().pending.len() == 0,
        g.settled().log.len() == g.log.len() + g.pending.len(),
        g.settled().log.subrange(0, g.log.len() as int) == g.log,
        g.settled().settled() == g.settled(),
{
}

/// An event never touches the log, the channel or the gun, and it adds at most
/// one reaction to those that are pending: its own.
pub proof fn step_only_adds_its_reaction(g: GameView, event: EventView)
    ensures
        g.step(event).log == g.log,
        g.step(event).channel == g.channel,
        g.step(event).gun == g.gun,
        g.step(event).pending == g.pending || (g.step(event).pending.len() == g.pending.len() + 1
            && g.step(event).pending.drop_last() == g.pending && g.step(
            event,
        ).pending.last().event == event),
{
    let after = g.step(event);
    if after.pending != g.pending {
        assert(after.pending.drop_last() =~= g.pending);
    }
}

/// A lobby that hears nothing but ticks stays open, with the same nicks in it,
/// for as many ticks as it has left, and the last of them closes it: the game
/// is idle again and the roster empty.
pub proof fn lobby_left_alone_closes(g: GameView, n: nat)
    requires
        g.wf(),
        g.phase is Starting,
        n <= g.ticks_left(),
    ensures
        g.run(ticks(n)).wf(),
        n < g.ticks_left() ==> g.run(ticks(n)).phase is Starting && g.run(ticks(n)).players
            == g.players && g.run(ticks(n)).ticks_left() == g.ticks_left() - n,
        n == g.ticks_left() ==> g.run(ticks(n)).phase is Inactive && g.run(ticks(n)).players
            == RosterView::Joiners(Seq::empty()),
        g.run(ticks(n)).pending == g.pending,
    decreases n,
{
    if n > 0 {
        lobby_left_alone_closes(g, (n - 1) as nat);
        assert(ticks(n).drop_last() =~= ticks((n - 1) as nat));
    }
}

/// A lobby that was just opened in a new game has a full counter for each step
/// of its countdown left, and one tick more.
pub proof fn new_lobby_has_its_time(channel: Seq<char>, nick: Seq<char>)
    ensures
        GameView::fresh(channel).join(nick).ticks_left() == MAX_TICKS * LOBBY_COUNTDOWN + 1,
{
}

/// A turn of the loop leaves nothing pending where nothing was pending before
/// it, and only ever adds to the end of the log.
pub proof fn turn_leaves_nothing_pending(g: GameView, event: EventView)
    requires
        g.pending.len() == 0,
    ensures
        g.dispatched(event).pending.len() == 0,
        g.dispatched(event).log.len() >= g.log.len(),
        g.dispatched(event).log.subrange(0, g.log.len() as int) == g.log,
{
    step_only_adds_its_reaction(g, event);
}

} // verus!
